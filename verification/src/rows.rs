//! The text of the rows the interface draws: the queue, the lists of the
//! artists and albums views, and the progress bar. Colours and styles are
//! the drawing code's business; what each row reads, how wide its parts are
//! and where it is cut are decided here.

use vstd::prelude::*;
use crate::layout::{
    Rect,
    left_align_cached, left_aligned_with_cache, truncate_by_width, truncate_by_width_cached,
    truncated, truncated_with_cache,
};
use crate::render_cache::{
    filler, long_format, short_format, RenderCache, DASH, MAX_FILLER_WIDTH,
    MAX_PROGRESS_BAR_WIDTH, PROGRESS_CHAR,
};
use crate::scan::{is_space, trim_end_by, trim_end_chars};
use crate::song::{PlayState, SongInfo};
use crate::suggest::byte_len;
use crate::text::{chars_of, decimal, digit_char, push_repeat, push_str, repeat, string_of, two_digits};
use crate::width::{printable_ascii, str_width, text_width};
use crate::width_cache::WidthCache;

verus! {

/// `a - b`, or zero when `b` is larger.
pub open spec fn sat_sub(a: int, b: int) -> nat {
    if a >= b {
        (a - b) as nat
    } else {
        0
    }
}

/// The columns inside a box of `width` columns: two for its borders, two
/// for padding.
pub open spec fn inner(width: u16) -> nat {
    sat_sub(width as int, 4)
}

/// Ten to the power `k`.
pub open spec fn pow10(k: nat) -> nat
    decreases k,
{
    if k == 0 {
        1
    } else {
        10 * pow10((k - 1) as nat)
    }
}

/// The digits of a number are decimal digits.
pub proof fn lemma_decimal_digits(n: nat)
    ensures
        decimal(n).len() >= 1,
        forall|i: int| 0 <= i < decimal(n).len() ==> '0' <= #[trigger] decimal(n)[i] <= '9',
    decreases n,
{
    if n >= 10 {
        lemma_decimal_digits(n / 10);
        let d = decimal(n / 10);
        let c = digit_char((n % 10) as int);
        assert('0' <= c <= '9');
        assert(decimal(n) == d.push(c));
        assert forall|i: int| 0 <= i < decimal(n).len() implies '0' <= #[trigger] decimal(n)[i]
            <= '9' by {
            if i < d.len() {
                assert(decimal(n)[i] == d[i]);
            }
        }
    } else {
        let c = digit_char(n as int);
        assert('0' <= c <= '9');
        assert(decimal(n) == seq![c]);
    }
}

/// A number below `10^k` has at most `k` digits.
pub proof fn lemma_decimal_len(n: nat, k: nat)
    requires
        k >= 1,
        n < pow10(k),
    ensures
        decimal(n).len() <= k,
    decreases k,
{
    if n >= 10 {
        if k == 1 {
            assert(pow10(1) == 10 * pow10(0));
        } else {
            let p = pow10((k - 1) as nat);
            assert(pow10(k) == 10 * p);
            assert(n / 10 < p) by (nonlinear_arith)
                requires
                    n < 10 * p,
                    p >= 1,
            ;
            lemma_decimal_len(n / 10, (k - 1) as nat);
        }
    }
}

/// A 64-bit number has at most twenty digits.
pub proof fn lemma_decimal_len_u64(n: u64)
    ensures
        decimal(n as nat).len() <= 20,
{
    reveal_with_fuel(pow10, 21);
    assert(pow10(20) == 100000000000000000000nat);
    lemma_decimal_len(n as nat, 20);
}

/// A number below a hundred has at most two digits.
proof fn lemma_decimal_len_small(n: nat)
    requires
        n < 100,
    ensures
        decimal(n).len() <= 2,
{
    reveal_with_fuel(pow10, 3);
    lemma_decimal_len(n, 2);
}

/// Durations are printable ASCII, and short.
pub proof fn lemma_short_format(secs: u64)
    ensures
        printable_ascii(short_format(secs as nat)),
        short_format(secs as nat).len() <= 23,
{
    let m = decimal((secs / 60) as nat);
    lemma_decimal_digits((secs / 60) as nat);
    lemma_decimal_len_u64(secs / 60);
    let t = two_digits((secs % 60) as nat);
    lemma_decimal_digits((secs % 60) as nat);
    let c = digit_char((secs % 60) as int);
    assert('0' <= c <= '9');
    lemma_decimal_len_small((secs % 60) as nat);
    assert((secs % 60) < 10 ==> t == seq!['0', c]);
    assert(t.len() <= 2);
    let f = short_format(secs as nat);
    assert(f == m + seq![':'] + t);
    assert forall|i: int| 0 <= i < f.len() implies '\u{20}' <= #[trigger] f[i] && f[i]
        <= '\u{7E}' by {
        if i < m.len() {
            assert(f[i] == m[i]);
        } else if i == m.len() {
        } else {
            assert(f[i] == t[i - m.len() - 1]);
            if (secs % 60) < 10 {
                assert(t == seq!['0', c]);
            }
        }
    }
}

/// Long durations are printable ASCII, and short.
pub proof fn lemma_long_format(secs: u64)
    ensures
        printable_ascii(long_format(secs as nat)),
        long_format(secs as nat).len() <= 26,
{
    let hn = (secs / 3600) as nat;
    let mn = ((secs % 3600) / 60) as nat;
    let sn = (secs % 60) as nat;
    lemma_decimal_digits(hn);
    lemma_decimal_digits(mn);
    lemma_decimal_digits(sn);
    lemma_decimal_len_u64(secs / 3600);
    lemma_decimal_len_u64((secs % 3600) / 60);
    let h = decimal(hn);
    let m = decimal(mn);
    let t = two_digits(sn);
    let c = digit_char(sn as int);
    assert('0' <= c <= '9');
    assert(sn < 10 ==> t == seq!['0', c]);
    assert(sn >= 10 ==> t == decimal(sn));
    assert forall|i: int| 0 <= i < t.len() implies '\u{20}' <= #[trigger] t[i] && t[i]
        <= '\u{7E}' by {
        if sn < 10 {
            if i == 1 {
                assert(t[1] == c);
            }
        } else {
            assert(t[i] == decimal(sn)[i]);
        }
    }
    let tail = m + seq![':'] + t;
    assert forall|i: int| 0 <= i < tail.len() implies '\u{20}' <= #[trigger] tail[i] && tail[i]
        <= '\u{7E}' by {
        if i < m.len() {
            assert(tail[i] == m[i]);
        } else if i > m.len() {
            assert(tail[i] == t[i - m.len() - 1]);
        }
    }
    let f = long_format(secs as nat);
    if hn > 0 {
        assert(f == h + seq![':'] + tail);
        assert forall|i: int| 0 <= i < f.len() implies '\u{20}' <= #[trigger] f[i] && f[i]
            <= '\u{7E}' by {
            if i < h.len() {
                assert(f[i] == h[i]);
            } else if i > h.len() {
                assert(f[i] == tail[i - h.len() - 1]);
            }
        }
    } else {
        assert(f == tail);
    }
    lemma_decimal_len_small(sn);
    lemma_decimal_len_small(mn);
    assert(t.len() <= 2);
}

/// A list entry of the albums view: album and artist, cut to the box.
pub open spec fn album_entry(album: Seq<char>, artist: Seq<char>, width: u16) -> Seq<char> {
    let text = album + " - "@ + artist;
    if str_width(text) > inner(width) {
        truncated(text, inner(width))
    } else {
        text
    }
}

/// The entry of an album in the albums view, for a box `panel_width`
/// columns wide.
pub fn album_entry_text(album: &str, artist: &str, panel_width: u16) -> (r: String)
    ensures
        r@ == album_entry(album@, artist@, panel_width),
{
    let available: usize = panel_width.saturating_sub(4) as usize;
    let mut text = String::new();
    push_str(&mut text, album);
    push_str(&mut text, " - ");
    push_str(&mut text, artist);
    if text_width(text.as_str()) > available {
        truncate_by_width(text.as_str(), available)
    } else {
        text
    }
}

/// The duration shown after a track: two spaces and `M:SS`, or dashes.
pub open spec fn track_duration(duration_ms: Option<u64>) -> Seq<char> {
    match duration_ms {
        Some(ms) => "  "@ + short_format((ms / 1000) as nat),
        None => "  --:--"@,
    }
}

proof fn lemma_track_duration(duration_ms: Option<u64>)
    ensures
        printable_ascii(track_duration(duration_ms)),
        track_duration(duration_ms).len() <= 25,
{
    reveal_strlit("  ");
    reveal_strlit("  --:--");
    match duration_ms {
        Some(ms) => {
            lemma_short_format(ms / 1000);
            let f = short_format((ms / 1000) as nat);
            let d = track_duration(duration_ms);
            assert(d == seq![' ', ' '] + f);
            assert forall|i: int| 0 <= i < d.len() implies '\u{20}' <= #[trigger] d[i] && d[i]
                <= '\u{7E}' by {
                if i >= 2 {
                    assert(d[i] == f[i - 2]);
                }
            }
        },
        None => {},
    }
}

fn track_duration_text(duration_ms: Option<u64>) -> (r: String)
    ensures
        r@ == track_duration(duration_ms),
{
    let mut r = String::new();
    match duration_ms {
        Some(ms) => {
            push_str(&mut r, "  ");
            push_str(&mut r, crate::render_cache::make_short(ms / 1000).as_str());
        },
        None => push_str(&mut r, "  --:--"),
    }
    r
}

/// A track row of the albums view: the title after three spaces, cut or
/// padded so that the duration after it lines up; and the duration.
pub open spec fn track_row(title: Seq<char>, duration_ms: Option<u64>, width: u16) -> (
    Seq<char>,
    Seq<char>,
) {
    let dur = track_duration(duration_ms);
    let max = sat_sub(inner(width) as int, dur.len() + 3int);
    let t = if str_width(title) > max {
        truncated(title, max)
    } else {
        title
    };
    ("   "@ + t + repeat(' ', sat_sub(max as int, str_width(t) as int)), dur)
}

/// The title and duration of a track row of the albums view, for a box
/// `panel_width` columns wide.
pub fn track_row_texts(title: &str, duration_ms: Option<u64>, panel_width: u16) -> (r: (
    String,
    String,
))
    ensures
        (r.0@, r.1@) == track_row(title@, duration_ms, panel_width),
{
    let dur = track_duration_text(duration_ms);
    proof {
        lemma_track_duration(duration_ms);
    }
    let available: usize = panel_width.saturating_sub(4) as usize;
    let dur_width = text_width(dur.as_str());
    let max = available.saturating_sub(dur_width + 3);
    let t = if text_width(title) > max {
        truncate_by_width(title, max)
    } else {
        title.to_owned()
    };
    let tw = text_width(t.as_str());
    let mut text = String::new();
    push_str(&mut text, "   ");
    push_str(&mut text, t.as_str());
    push_repeat(&mut text, ' ', max.saturating_sub(tw));
    (text, dur)
}

/// The play state as an icon: pause while playing, play while paused,
/// stop otherwise.
pub open spec fn state_icon(state: Option<PlayState>) -> Seq<char> {
    match state {
        Some(PlayState::Playing) => "⏸"@,
        Some(PlayState::Paused) => "▶"@,
        _ => "⏹"@,
    }
}

/// The icon of a play state.
pub fn play_state_icon(state: Option<PlayState>) -> (r: &'static str)
    ensures
        r@ == state_icon(state),
{
    match state {
        Some(PlayState::Playing) => "⏸",
        Some(PlayState::Paused) => "▶",
        _ => "⏹",
    }
}

/// The icon of a volume: muted at zero, then low, medium and high from
/// 33 and 66 up.
pub open spec fn volume_icon_spec(volume: u8) -> Seq<char> {
    if volume == 0 {
        "󰝟"@
    } else if volume < 33 {
        "󰕿"@
    } else if volume < 66 {
        "󰖀"@
    } else {
        "󰕾"@
    }
}

/// The icon of a volume.
pub fn volume_icon(volume: u8) -> (r: &'static str)
    ensures
        r@ == volume_icon_spec(volume),
{
    if volume == 0 {
        "󰝟"
    } else if volume < 33 {
        "󰕿"
    } else if volume < 66 {
        "󰖀"
    } else {
        "󰕾"
    }
}

proof fn lemma_literal_ascii_dashes()
    ensures
        printable_ascii("--:--"@),
        "--:--"@.len() == 5,
{
    reveal_strlit("--:--");
}

/// The total length shown after an album of the artists view: `H:M:SS`
/// (or `M:SS`), or dashes when a track has no duration.
pub open spec fn album_duration(total_secs: Option<u64>) -> Seq<char> {
    match total_secs {
        Some(s) => long_format(s as nat),
        None => "--:--"@,
    }
}

/// An album row of the artists view: a space, the name (cut and stripped
/// of trailing spaces when too wide), dashes, three spaces and the
/// duration, so that durations line up at the right.
pub open spec fn album_row(name: Seq<char>, total_secs: Option<u64>, width: u16) -> Seq<char> {
    let dur = album_duration(total_secs);
    let max = sat_sub(inner(width) as int, dur.len() + 4int);
    let t = if str_width(name) <= max {
        name
    } else {
        trim_end_by(truncated(name, max), |c: char| is_space(c))
    };
    " "@ + t + filler(DASH, sat_sub(max as int, str_width(t) as int), MAX_FILLER_WIDTH as nat)
        + "   "@ + dur
}

/// The width cache can count `calls` more lookups.
pub open spec fn cache_room(wc: WidthCache, calls: nat) -> bool {
    wc.hit_count() + wc.miss_count() + calls < u64::MAX
}

/// The row of an album of the artists view in a box `panel_width` columns
/// wide; widths are looked up in (and added to) the width cache.
pub fn album_row_text(
    wc: &mut WidthCache,
    rc: &mut RenderCache,
    name: &str,
    total_secs: Option<u64>,
    panel_width: u16,
) -> (r: String)
    requires
        cache_room(*old(wc), 2),
    ensures
        r@ == album_row(name@, total_secs, panel_width),
        final(wc).hit_count() + final(wc).miss_count() <= old(wc).hit_count() + old(
            wc,
        ).miss_count() + 2,
{
    let mut dur = String::new();
    match total_secs {
        Some(s) => {
            push_str(&mut dur, rc.durations.format_long(s));
            proof {
                lemma_long_format(s);
            }
        },
        None => {
            push_str(&mut dur, "--:--");
            proof {
                lemma_literal_ascii_dashes();
            }
        },
    }
    assert(dur@ == album_duration(total_secs));
    let available: usize = panel_width.saturating_sub(4) as usize;
    let dur_width = text_width(dur.as_str());
    let max = available.saturating_sub(dur_width + 4);
    let name_width = wc.get_width(name);
    let (t, w) = if name_width <= max {
        (name.to_owned(), name_width)
    } else {
        let cut = truncate_by_width_cached(wc, name, max);
        let cs = chars_of(cut.as_str());
        let trimmed = string_of(trim_end_chars(&cs).as_slice());
        let tw = wc.get_width(trimmed.as_str());
        (trimmed, tw)
    };
    let mut r = String::new();
    push_str(&mut r, " ");
    push_str(&mut r, t.as_str());
    push_str(&mut r, rc.fillers.dashes(max.saturating_sub(w)));
    push_str(&mut r, "   ");
    push_str(&mut r, dur.as_str());
    r
}

/// A song row of the artists view: the title after three spaces, cut (or
/// padded) by the width cache's rule and padded with spaces so that the
/// duration lines up; and the duration.
pub open spec fn song_row(
    title: Seq<char>,
    title_bytes: nat,
    cached: bool,
    duration_ms: Option<u64>,
    width: u16,
) -> (Seq<char>, Seq<char>) {
    let dur = track_duration(duration_ms);
    let max = sat_sub(inner(width) as int, dur.len() + 3int);
    let t = truncated_with_cache(title, title_bytes, cached, max);
    (
        "   "@ + t + filler(' ', sat_sub(max as int, str_width(t) as int), MAX_FILLER_WIDTH as nat),
        dur,
    )
}

/// The title and duration of a song row of the artists view in a box
/// `panel_width` columns wide. The width cache is read, not changed.
pub fn song_row_texts(
    wc: &mut WidthCache,
    rc: &mut RenderCache,
    title: &str,
    duration_ms: Option<u64>,
    panel_width: u16,
) -> (r: (String, String))
    ensures
        (r.0@, r.1@) == song_row(
            title@,
            title.len() as nat,
            old(wc).has(title@),
            duration_ms,
            panel_width,
        ),
        *final(wc) == *old(wc),
{
    let mut dur = String::new();
    match duration_ms {
        Some(ms) => {
            push_str(&mut dur, "  ");
            push_str(&mut dur, rc.durations.format_short(ms / 1000));
        },
        None => push_str(&mut dur, "  --:--"),
    }
    assert(dur@ == track_duration(duration_ms));
    proof {
        lemma_track_duration(duration_ms);
    }
    let available: usize = panel_width.saturating_sub(4) as usize;
    let dur_width = text_width(dur.as_str());
    let max = available.saturating_sub(dur_width + 3);
    let t = truncate_by_width_cached(wc, title, max);
    let tw = text_width(t.as_str());
    let mut text = String::new();
    push_str(&mut text, "   ");
    push_str(&mut text, t.as_str());
    push_str(&mut text, rc.fillers.spaces(max.saturating_sub(tw)));
    (text, dur)
}

/// The widest of the numbers `1. ` to `m. `, in columns.
pub open spec fn widest_number(m: nat) -> nat
    decreases m,
{
    if m == 0 {
        0
    } else {
        let w = decimal(m).len() + 2;
        let rest = widest_number((m - 1) as nat);
        if rest >= w {
            rest
        } else {
            w
        }
    }
}

/// The columns of the position numbers of a queue: as wide as the widest
/// of the first thousand, or three for an empty queue.
pub open spec fn number_width(len: nat) -> nat {
    if len == 0 {
        3
    } else if len > 1000 {
        widest_number(1000)
    } else {
        widest_number(len)
    }
}

proof fn lemma_number_digits(k: nat)
    requires
        1 <= k <= 1000,
    ensures
        decimal(k).len() <= 4,
        printable_ascii(decimal(k) + ". "@),
        (decimal(k) + ". "@).len() == decimal(k).len() + 2,
{
    reveal_with_fuel(pow10, 5);
    lemma_decimal_len(k, 4);
    lemma_decimal_digits(k);
    reveal_strlit(". ");
    let t = decimal(k) + ". "@;
    assert forall|i: int| 0 <= i < t.len() implies '\u{20}' <= #[trigger] t[i] && t[i]
        <= '\u{7E}' by {
        if i < decimal(k).len() {
            assert(t[i] == decimal(k)[i]);
        }
    }
}

proof fn lemma_widest_bounded(m: nat)
    requires
        m <= 1000,
    ensures
        widest_number(m) <= 6,
    decreases m,
{
    if m > 0 {
        lemma_number_digits(m);
        lemma_widest_bounded((m - 1) as nat);
    }
}

/// The columns of the position numbers of a queue of `len` songs.
pub fn queue_number_width(len: usize) -> (r: usize)
    ensures
        r == number_width(len as nat),
        r <= 6,
{
    if len == 0 {
        return 3;
    }
    let m: usize = if len > 1000 {
        1000
    } else {
        len
    };
    let mut widest: usize = 0;
    let mut k: usize = 1;
    while k <= m
        invariant
            1 <= k <= m + 1,
            m <= 1000,
            widest == widest_number((k - 1) as nat),
            widest <= 6,
        decreases m + 1 - k,
    {
        let mut num = String::new();
        crate::text::push_decimal(&mut num, k as u64);
        push_str(&mut num, ". ");
        proof {
            lemma_number_digits(k as nat);
            lemma_widest_bounded(k as nat);
        }
        let w = text_width(num.as_str());
        if w > widest {
            widest = w;
        }
        k = k + 1;
    }
    widest
}

/// One row of the queue.
#[derive(Debug, Clone)]
pub struct QueueRow {
    /// The position, padded to the width of the widest position.
    pub number: String,
    pub title: String,
    pub artist: String,
    pub album: String,
    pub duration: String,
    /// The song is the one playing.
    pub playing: bool,
    /// The row is the selected one.
    pub selected: bool,
    /// Spaces that extend the selected row to the edge of the box.
    pub padding: Option<String>,
}

/// A row of the queue as plain values.
pub struct QueueRowView {
    pub number: Seq<char>,
    pub title: Seq<char>,
    pub artist: Seq<char>,
    pub album: Seq<char>,
    pub duration: Seq<char>,
    pub playing: bool,
    pub selected: bool,
    pub padding: Option<Seq<char>>,
}

/// The plain view of a queue row.
pub open spec fn row_view(r: QueueRow) -> QueueRowView {
    QueueRowView {
        number: r.number@,
        title: r.title@,
        artist: r.artist@,
        album: r.album@,
        duration: r.duration@,
        playing: r.playing,
        selected: r.selected,
        padding: match r.padding {
            Some(p) => Some(p@),
            None => None,
        },
    }
}

/// The width of each of title, artist and album in a box `area_width`
/// columns wide: a third of what the number, the separators and the
/// duration leave, but at least eight.
pub open spec fn field_width(area_width: u16, number_width: nat) -> nat {
    let third = sat_sub(inner(area_width) as int, number_width + 10int) / 3;
    if third >= 8 {
        third
    } else {
        8
    }
}

/// The duration of a queue row: `M:SS`, or ` (--:--)` when unknown.
pub open spec fn queue_duration(duration_ms: Option<u64>) -> Seq<char> {
    match duration_ms {
        Some(ms) => short_format((ms / 1000) as nat),
        None => " (--:--)"@,
    }
}

/// The row of the song at `index` of the queue, in a box `area_width`
/// columns wide; `current_file` is the file of the song playing.
pub open spec fn queue_row_spec(
    index: nat,
    song: SongInfo,
    number_width: nat,
    area_width: u16,
    selected: bool,
    current_file: Option<Seq<char>>,
) -> QueueRowView {
    let fw = field_width(area_width, number_width);
    let title = left_aligned_with_cache(song.title@, byte_len(song.title@), fw);
    let artist = left_aligned_with_cache(song.artist@, byte_len(song.artist@), fw);
    let album = left_aligned_with_cache(song.album@, byte_len(song.album@), fw);
    let duration = queue_duration(song.duration_ms);
    let num = decimal(index + 1) + ". "@;
    let line = num + title + " ║ "@ + artist + " ║ "@ + album + duration;
    let rest = sat_sub(area_width as int, (str_width(line) as u16) as int);
    QueueRowView {
        number: num + repeat(' ', sat_sub(number_width as int, num.len() as int)),
        title,
        artist,
        album,
        duration,
        playing: current_file == Some(song.file_path@),
        selected,
        padding: if selected && rest > 0 {
            Some(filler(' ', rest, MAX_FILLER_WIDTH as nat))
        } else {
            None
        },
    }
}

fn queue_row(
    wc: &mut WidthCache,
    rc: &mut RenderCache,
    index: usize,
    song: &SongInfo,
    number_width: usize,
    area_width: u16,
    selected: bool,
    current_file: &Option<String>,
) -> (r: QueueRow)
    requires
        index < usize::MAX,
        number_width <= 6,
        cache_room(*old(wc), 3),
    ensures
        row_view(r) == queue_row_spec(
            index as nat,
            *song,
            number_width as nat,
            area_width,
            selected,
            match current_file {
                Some(f) => Some(f@),
                None => None,
            },
        ),
        final(wc).hit_count() + final(wc).miss_count() == old(wc).hit_count() + old(
            wc,
        ).miss_count() + 3,
{
    let inner_width: usize = area_width.saturating_sub(4) as usize;
    let remaining = inner_width.saturating_sub(number_width + 10);
    let third = remaining / 3;
    let fw = if third >= 8 {
        third
    } else {
        8
    };
    let duration = match song.duration_ms {
        Some(ms) => {
            let mut d = String::new();
            push_str(&mut d, rc.durations.format_short(ms / 1000));
            d
        },
        None => {
            let mut d = String::new();
            push_str(&mut d, " (--:--)");
            d
        },
    };
    let title = left_align_cached(wc, song.title.as_str(), fw);
    let artist = left_align_cached(wc, song.artist.as_str(), fw);
    let album = left_align_cached(wc, song.album.as_str(), fw);
    let playing = match current_file {
        Some(f) => crate::text::str_eq(f.as_str(), song.file_path.as_str()),
        None => false,
    };
    let mut num = String::new();
    crate::text::push_decimal(&mut num, (index + 1) as u64);
    push_str(&mut num, ". ");
    let mut number = String::new();
    push_str(&mut number, num.as_str());
    let num_len = chars_of(num.as_str()).len();
    push_repeat(&mut number, ' ', number_width.saturating_sub(num_len));
    let padding = if selected {
        let mut line = String::new();
        push_str(&mut line, num.as_str());
        push_str(&mut line, title.as_str());
        push_str(&mut line, " ║ ");
        push_str(&mut line, artist.as_str());
        push_str(&mut line, " ║ ");
        push_str(&mut line, album.as_str());
        push_str(&mut line, duration.as_str());
        let current_width = text_width(line.as_str());
        let rest: usize = area_width.saturating_sub(#[verifier::truncate] (current_width as u16))
            as usize;
        if rest > 0 {
            let mut p = String::new();
            push_str(&mut p, rc.fillers.spaces(rest));
            Some(p)
        } else {
            None
        }
    } else {
        None
    };
    QueueRow { number, title, artist, album, duration, playing, selected, padding }
}

/// The rows of the queue in a box `area_width` columns wide, with the
/// selected row and the song playing marked.
pub fn queue_rows(
    wc: &mut WidthCache,
    rc: &mut RenderCache,
    queue: &Vec<SongInfo>,
    selected: Option<usize>,
    current: &Option<SongInfo>,
    area_width: u16,
) -> (r: Vec<QueueRow>)
    requires
        cache_room(*old(wc), 3 * queue@.len()),
    ensures
        r@.len() == queue@.len(),
        forall|i: int|
            0 <= i < queue@.len() ==> row_view(#[trigger] r@[i]) == queue_row_spec(
                i as nat,
                queue@[i],
                number_width(queue@.len()),
                area_width,
                selected == Some(i as usize),
                match current {
                    Some(s) => Some(s.file_path@),
                    None => None,
                },
            ),
{
    let nw = queue_number_width(queue.len());
    let current_file: Option<String> = match current {
        Some(s) => Some(s.file_path.clone()),
        None => None,
    };
    let ghost cf = match current {
        Some(s) => Some(s.file_path@),
        None => None::<Seq<char>>,
    };
    let ghost start = old(wc).hit_count() + old(wc).miss_count();
    let mut rows: Vec<QueueRow> = Vec::new();
    let mut i: usize = 0;
    while i < queue.len()
        invariant
            i <= queue@.len(),
            nw == number_width(queue@.len()),
            nw <= 6,
            rows@.len() == i,
            cf == match current_file {
                Some(f) => Some(f@),
                None => None::<Seq<char>>,
            },
            cf == match current {
                Some(s) => Some(s.file_path@),
                None => None::<Seq<char>>,
            },
            wc.hit_count() + wc.miss_count() == start + 3 * i,
            start + 3 * queue@.len() < u64::MAX,
            forall|j: int|
                0 <= j < i ==> row_view(#[trigger] rows@[j]) == queue_row_spec(
                    j as nat,
                    queue@[j],
                    nw as nat,
                    area_width,
                    selected == Some(j as usize),
                    cf,
                ),
        decreases queue.len() - i,
    {
        let is_selected = match selected {
            Some(s) => s == i,
            None => false,
        };
        let row = queue_row(wc, rc, i, &queue[i], nw, area_width, is_selected, &current_file);
        rows.push(row);
        i = i + 1;
    }
    rows
}

/// The texts of the progress bar's time, piece by piece: elapsed and total
/// time as `M:SS`, with dashes for what is unknown.
pub open spec fn time_pieces(elapsed_secs: Option<u64>, duration_secs: Option<u64>) -> Seq<
    Seq<char>,
> {
    match (elapsed_secs, duration_secs) {
        (Some(e), Some(d)) => seq![
            " "@,
            short_format(e as nat),
            "/"@,
            short_format(d as nat),
            " "@,
        ],
        (Some(e), None) => seq![" "@, short_format(e as nat), "/--:--"@, " "@],
        (None, Some(d)) => seq![" "@, "--:--/"@, short_format(d as nat), " "@],
        (None, None) => seq![" --:--/--:-- "@],
    }
}

/// The total length of some pieces of text.
pub open spec fn total_len(pieces: Seq<Seq<char>>) -> nat
    decreases pieces.len(),
{
    if pieces.len() == 0 {
        0
    } else {
        total_len(pieces.drop_last()) + pieces.last().len()
    }
}

/// How the progress bar divides its line.
#[derive(Debug, Clone)]
pub struct ProgressLayout {
    /// The time texts, after the bar.
    pub times: Vec<String>,
    /// The played part of the bar.
    pub filled: String,
    /// The rest of the bar.
    pub empty: String,
}

/// The length of the bar in a line `inner_width` columns wide: what the
/// state icon (three), two spaces and the time leave.
pub open spec fn bar_length(inner_width: u16, pieces: Seq<Seq<char>>) -> nat {
    sat_sub(inner_width as int, 5int + total_len(pieces))
}

/// The played part of a bar: `percentage` percent of it, at most all of it.
pub open spec fn filled_length(percentage: u16, bar: nat) -> nat {
    let f = (percentage as nat * bar) / 100;
    if f <= bar {
        f
    } else {
        bar
    }
}

proof fn lemma_time_pieces(elapsed_secs: Option<u64>, duration_secs: Option<u64>)
    ensures
        total_len(time_pieces(elapsed_secs, duration_secs)) <= 60,
{
    reveal_strlit(" ");
    reveal_strlit("/");
    reveal_strlit("/--:--");
    reveal_strlit("--:--/");
    reveal_strlit(" --:--/--:-- ");
    reveal_with_fuel(total_len, 6);
    match elapsed_secs {
        Some(e) => lemma_short_format(e),
        None => {},
    }
    match duration_secs {
        Some(d) => lemma_short_format(d),
        None => {},
    }
    let p = time_pieces(elapsed_secs, duration_secs);
    if p.len() == 5 {
        assert(p.drop_last().drop_last().drop_last().drop_last().drop_last().len() == 0);
    }
}

/// The layout of the progress bar for a line `inner_width` columns wide,
/// the played percentage, and the elapsed and total seconds.
pub fn progress_layout(
    rc: &mut RenderCache,
    inner_width: u16,
    percentage: u16,
    elapsed_secs: Option<u64>,
    duration_secs: Option<u64>,
) -> (r: ProgressLayout)
    ensures
        r.times@.map_values(|t: String| t@) == time_pieces(elapsed_secs, duration_secs),
        r.filled@ == filler(
            PROGRESS_CHAR,
            filled_length(
                percentage,
                bar_length(inner_width, time_pieces(elapsed_secs, duration_secs)),
            ),
            MAX_PROGRESS_BAR_WIDTH as nat,
        ),
        r.empty@ == filler(
            PROGRESS_CHAR,
            sat_sub(
                bar_length(inner_width, time_pieces(elapsed_secs, duration_secs)) as int,
                filled_length(
                    percentage,
                    bar_length(inner_width, time_pieces(elapsed_secs, duration_secs)),
                ) as int,
            ),
            MAX_PROGRESS_BAR_WIDTH as nat,
        ),
{
    let ghost pieces = time_pieces(elapsed_secs, duration_secs);
    let mut times: Vec<String> = Vec::new();
    match (elapsed_secs, duration_secs) {
        (Some(e), Some(d)) => {
            times.push(" ".to_string());
            times.push(crate::render_cache::make_short(e));
            times.push("/".to_string());
            times.push(crate::render_cache::make_short(d));
            times.push(" ".to_string());
        },
        (Some(e), None) => {
            times.push(" ".to_string());
            times.push(crate::render_cache::make_short(e));
            times.push("/--:--".to_string());
            times.push(" ".to_string());
        },
        (None, Some(d)) => {
            times.push(" ".to_string());
            times.push("--:--/".to_string());
            times.push(crate::render_cache::make_short(d));
            times.push(" ".to_string());
        },
        (None, None) => {
            times.push(" --:--/--:-- ".to_string());
        },
    }
    assert(times@.map_values(|t: String| t@) =~= pieces);
    proof {
        lemma_time_pieces(elapsed_secs, duration_secs);
    }
    let mut time_width: usize = 0;
    let mut i: usize = 0;
    while i < times.len()
        invariant
            i <= times@.len(),
            times@.map_values(|t: String| t@) == pieces,
            time_width == total_len(pieces.take(i as int)),
            total_len(pieces) <= 60,
        decreases times.len() - i,
    {
        assert(pieces.take(i as int + 1).drop_last() == pieces.take(i as int));
        proof {
            lemma_total_len_prefix(pieces, i as int + 1);
        }
        let n = chars_of(times[i].as_str()).len();
        assert(n == pieces[i as int].len());
        time_width = time_width + n;
        i = i + 1;
    }
    assert(pieces.take(i as int) == pieces);
    let total: u16 = (5 + time_width) as u16;
    let bar: usize = inner_width.saturating_sub(total) as usize;
    assert((percentage as usize) * bar <= 65535 * 65535) by (nonlinear_arith)
        requires
            percentage <= 65535,
            bar <= 65535,
    ;
    let f = (percentage as usize) * bar / 100;
    let filled_len = if f <= bar {
        f
    } else {
        bar
    };
    let empty_len = bar - filled_len;
    let mut filled = String::new();
    push_str(&mut filled, rc.fillers.progress_chars(filled_len));
    let mut empty = String::new();
    push_str(&mut empty, rc.fillers.progress_chars(empty_len));
    ProgressLayout { times, filled, empty }
}

/// The length of a prefix of pieces is at most that of all of them.
proof fn lemma_total_len_prefix(pieces: Seq<Seq<char>>, k: int)
    requires
        0 <= k <= pieces.len(),
    ensures
        total_len(pieces.take(k)) <= total_len(pieces),
    decreases pieces.len() - k,
{
    if k < pieces.len() {
        assert(pieces.take(k + 1).drop_last() == pieces.take(k));
        lemma_total_len_prefix(pieces, k + 1);
    } else {
        assert(pieces.take(k) == pieces);
    }
}

/// The widest of some lines, in columns; `None` for no lines.
pub open spec fn widest_line(ls: Seq<Seq<char>>) -> Option<nat>
    decreases ls.len(),
{
    if ls.len() == 0 {
        None
    } else {
        let w = str_width(ls.last()) as nat;
        match widest_line(ls.drop_last()) {
            Some(m) => Some(if m >= w {
                m
            } else {
                w
            }),
            None => Some(w),
        }
    }
}

/// The smaller of two numbers.
pub open spec fn min_nat(a: nat, b: nat) -> nat {
    if a <= b {
        a
    } else {
        b
    }
}

/// The popup of configuration warnings in a screen `area`: as wide as the
/// widest line (a warning, the title of 24 columns or the footer of 22;
/// 20 without warnings) with two columns of padding and a border on each
/// side, and as high as the warnings and five lines more, both at most the
/// screen less four; centred. Also the columns left for the text.
pub open spec fn popup_spec(area: Rect, ws: Seq<Seq<char>>) -> (Rect, nat) {
    let content = match widest_line(ws) {
        Some(m) => if m >= 24 {
            m
        } else {
            24
        },
        None => 24,
    };
    let w = min_nat(content + 6, (area.width - 4) as nat);
    let h = min_nat(ws.len() + 5, (area.height - 4) as nat);
    (
        Rect {
            x: ((area.width - w) / 2) as u16,
            y: ((area.height - h) / 2) as u16,
            width: w as u16,
            height: h as u16,
        },
        sat_sub(w as int, 4),
    )
}

proof fn lemma_title_widths()
    ensures
        printable_ascii(" Unknown Config Options "@),
        " Unknown Config Options "@.len() == 24,
        printable_ascii("Press any key to close"@),
        "Press any key to close"@.len() == 22,
{
    reveal_strlit(" Unknown Config Options ");
    reveal_strlit("Press any key to close");
}

/// Where the popup of configuration warnings goes in a screen `area`, and
/// the columns its text may take.
pub fn warnings_popup(area: Rect, warnings: &Vec<String>) -> (r: (Rect, usize))
    requires
        area.width >= 4,
        area.height >= 4,
    ensures
        (r.0, r.1 as nat) == popup_spec(area, crate::text::names(warnings@)),
{
    let ghost ws = crate::text::names(warnings@);
    let mut widest: Option<usize> = None;
    let mut i: usize = 0;
    while i < warnings.len()
        invariant
            i <= warnings@.len(),
            ws == crate::text::names(warnings@),
            match widest {
                Some(m) => widest_line(ws.take(i as int)) == Some(m as nat),
                None => widest_line(ws.take(i as int)) is None,
            },
        decreases warnings.len() - i,
    {
        assert(ws.take(i as int + 1).drop_last() == ws.take(i as int));
        assert(ws.take(i as int + 1).last() == warnings@[i as int]@);
        let w = text_width(warnings[i].as_str());
        widest = match widest {
            Some(m) => Some(if m >= w {
                m
            } else {
                w
            }),
            None => Some(w),
        };
        i = i + 1;
    }
    assert(ws.take(i as int) == ws);
    proof {
        lemma_title_widths();
    }
    let title = text_width(" Unknown Config Options ");
    let footer = text_width("Press any key to close");
    let mut content: usize = match widest {
        Some(m) => m,
        None => 20,
    };
    if title > content {
        content = title;
    }
    if footer > content {
        content = footer;
    }
    let limit: usize = (area.width - 4) as usize;
    let w: usize = if content <= limit && limit - content >= 6 {
        content + 6
    } else {
        limit
    };
    let hlimit: usize = (area.height - 4) as usize;
    let h: usize = if warnings.len() <= hlimit && hlimit - warnings.len() >= 5 {
        warnings.len() + 5
    } else {
        hlimit
    };
    let width = w as u16;
    let height = h as u16;
    (
        Rect { x: (area.width - width) / 2, y: (area.height - height) / 2, width, height },
        w.saturating_sub(4),
    )
}

/// Each text column of a queue row shows its own field of the song: the
/// title, artist and album columns depend on the song's title, artist and
/// album alone, and a field narrower than the column is shown as it is,
/// padded with spaces to the column's width.
pub proof fn lemma_queue_row_columns(
    index: nat,
    song: SongInfo,
    other: SongInfo,
    number_width: nat,
    area_width: u16,
    selected: bool,
    current_file: Option<Seq<char>>,
)
    ensures
        ({
            let r = queue_row_spec(index, song, number_width, area_width, selected, current_file);
            let o = queue_row_spec(index, other, number_width, area_width, selected, current_file);
            let fw = field_width(area_width, number_width);
            &&& other.title@ == song.title@ ==> o.title == r.title
            &&& other.artist@ == song.artist@ ==> o.artist == r.artist
            &&& other.album@ == song.album@ ==> o.album == r.album
            &&& str_width(song.title@) < fw ==> r.title == song.title@ + repeat(
                ' ',
                (fw - str_width(song.title@)) as nat,
            )
            &&& str_width(song.artist@) < fw ==> r.artist == song.artist@ + repeat(
                ' ',
                (fw - str_width(song.artist@)) as nat,
            )
            &&& str_width(song.album@) < fw ==> r.album == song.album@ + repeat(
                ' ',
                (fw - str_width(song.album@)) as nat,
            )
        }),
{
}

} // verus!
