//! Bit-perfect playback: which sample rate to ask PipeWire for, and what
//! PipeWire reports it accepts.

use vstd::prelude::*;
use crate::scan::{
    char_views, find_chars, find_from, lines, lines_of, parse_u32, parse_u32_chars, slice_chars,
    split_by, split_chars, trim, trim_chars, trim_end_char, trim_end_matching, trim_start_char,
    trim_start_matching,
};
use crate::scan::{words, words_of};
use crate::text::{chars_of, push_decimal, push_str};

verus! {

/// PipeWire settings of the configuration.
#[derive(Debug, Clone)]
pub struct PipewireConfig {
    /// Enable bit-perfect mode for PipeWire.
    pub bit_perfect_enabled: bool,
}

impl PipewireConfig {
    /// The default: bit-perfect mode off.
    pub fn default_bit_perfect_enabled() -> (r: bool)
        ensures
            r == false,
    {
        false
    }

    /// Bit-perfect mode is available when it is enabled and the program runs
    /// on Linux, the only platform with PipeWire.
    pub fn is_available(&self, on_linux: bool) -> (r: bool)
        ensures
            r == (on_linux && self.bit_perfect_enabled),
    {
        on_linux && self.bit_perfect_enabled
    }
}

impl Default for PipewireConfig {
    fn default() -> (r: Self)
        ensures
            r.bit_perfect_enabled == false,
    {
        PipewireConfig { bit_perfect_enabled: Self::default_bit_perfect_enabled() }
    }
}

/// `rate` divides `song_rate` evenly, as `u32::is_multiple_of` says.
pub open spec fn divides(rate: u32, song_rate: u32) -> bool {
    if rate == 0 {
        song_rate == 0
    } else {
        song_rate % rate == 0
    }
}

/// The highest rate among `rates` that divides `song_rate` evenly.
pub open spec fn best_divisor(song_rate: u32, rates: Seq<u32>) -> Option<u32>
    decreases rates.len(),
{
    if rates.len() == 0 {
        None
    } else {
        let prev = best_divisor(song_rate, rates.drop_last());
        let r = rates.last();
        if divides(r, song_rate) {
            match prev {
                Some(b) => if r > b {
                    Some(r)
                } else {
                    Some(b)
                },
                None => Some(r),
            }
        } else {
            prev
        }
    }
}

/// The rate to use for a song: its own rate when supported, else the highest
/// supported rate that divides it evenly, else 44100.
pub open spec fn resolved_rate(song_rate: u32, rates: Seq<u32>) -> u32 {
    if rates.contains(song_rate) {
        song_rate
    } else {
        match best_divisor(song_rate, rates) {
            Some(b) => b,
            None => 44100,
        }
    }
}

fn contains_rate(rates: &[u32], x: u32) -> (r: bool)
    ensures
        r == rates@.contains(x),
{
    let mut i: usize = 0;
    while i < rates.len()
        invariant
            i <= rates@.len(),
            forall|j: int| 0 <= j < i ==> rates@[j] != x,
        decreases rates@.len() - i,
    {
        if rates[i] == x {
            return true;
        }
        i = i + 1;
    }
    false
}

/// The best sample rate for a song given the rates PipeWire supports.
pub fn resolve_bit_perfect_rate(song_rate: u32, supported_rates: &[u32]) -> (r: u32)
    ensures
        r == resolved_rate(song_rate, supported_rates@),
{
    if contains_rate(supported_rates, song_rate) {
        return song_rate;
    }
    let mut best: Option<u32> = None;
    let mut i: usize = 0;
    while i < supported_rates.len()
        invariant
            i <= supported_rates@.len(),
            best == best_divisor(song_rate, supported_rates@.take(i as int)),
        decreases supported_rates@.len() - i,
    {
        let rate = supported_rates[i];
        let ghost prefix = supported_rates@.take(i + 1);
        assert(prefix.drop_last() == supported_rates@.take(i as int));
        assert(prefix.last() == rate);
        let fits = if rate == 0 {
            song_rate == 0
        } else {
            song_rate % rate == 0
        };
        if fits {
            match best {
                Some(b) => {
                    if rate > b {
                        best = Some(rate);
                    }
                },
                None => {
                    best = Some(rate);
                },
            }
        }
        i = i + 1;
    }
    assert(supported_rates@.take(supported_rates@.len() as int) == supported_rates@);
    match best {
        Some(b) => b,
        None => 44100,
    }
}

proof fn lemma_best_divisor(song_rate: u32, rates: Seq<u32>)
    ensures
        best_divisor(song_rate, rates) is None <==> forall|j: int|
            0 <= j < rates.len() ==> !divides(#[trigger] rates[j], song_rate),
        best_divisor(song_rate, rates) matches Some(b) ==> {
            &&& rates.contains(b)
            &&& divides(b, song_rate)
            &&& forall|j: int|
                0 <= j < rates.len() && divides(#[trigger] rates[j], song_rate) ==> rates[j] <= b
        },
    decreases rates.len(),
{
    if rates.len() > 0 {
        let init = rates.drop_last();
        lemma_best_divisor(song_rate, init);
        assert forall|j: int| 0 <= j < init.len() implies init[j] == rates[j] by {}
        if let Some(b) = best_divisor(song_rate, init) {
            let k = choose|k: int| 0 <= k < init.len() && init[k] == b;
            assert(rates[k] == b);
        }
        assert(rates[rates.len() - 1] == rates.last());
    }
}

/// The rate chosen for a song is the song's own rate when that is
/// supported; when it is not, but some supported rate divides the song's
/// rate evenly, it is the highest such rate (a supported one); when no
/// supported rate fits, it is 44100.
pub proof fn lemma_resolved_rate_choice(song_rate: u32, rates: Seq<u32>)
    ensures
        rates.contains(song_rate) ==> resolved_rate(song_rate, rates) == song_rate,
        !rates.contains(song_rate) && (forall|j: int|
            0 <= j < rates.len() ==> !divides(#[trigger] rates[j], song_rate))
            ==> resolved_rate(song_rate, rates) == 44100,
        !rates.contains(song_rate) && (exists|j: int|
            0 <= j < rates.len() && divides(#[trigger] rates[j], song_rate)) ==> {
            let r = resolved_rate(song_rate, rates);
            &&& rates.contains(r)
            &&& divides(r, song_rate)
            &&& forall|j: int|
                0 <= j < rates.len() && divides(#[trigger] rates[j], song_rate) ==> rates[j] <= r
        },
{
    lemma_best_divisor(song_rate, rates);
}

/// The accepted rates in one piece of an allowed-rates list.
pub open spec fn piece_rate(piece: Seq<char>) -> Option<u32> {
    match parse_u32(trim(piece)) {
        Some(r) => if 8000 <= r && r <= 384000 {
            Some(r)
        } else {
            None
        },
        None => None,
    }
}

/// The text of an allowed-rates value without brackets and surrounding space.
pub open spec fn rates_body(value: Seq<char>) -> Seq<char> {
    trim(trim_end_char(trim_start_char(trim(value), '['), ']'))
}

/// The pieces of an allowed-rates value, split at commas and spaces.
pub open spec fn rate_pieces(value: Seq<char>) -> Seq<Seq<char>> {
    split_by(rates_body(value), seq![',', ' '])
}

/// The rates between 8000 and 384000 that an allowed-rates value lists.
pub open spec fn listed_rates(value: Seq<char>) -> Set<u32> {
    Set::new(
        |r: u32|
            exists|i: int|
                0 <= i < rate_pieces(value).len() && piece_rate(#[trigger] rate_pieces(value)[i])
                    == Some(r),
    )
}

/// Each rate is smaller than the next.
pub open spec fn strictly_increasing(s: Seq<u32>) -> bool {
    forall|i: int, j: int| 0 <= i < j < s.len() ==> s[i] < s[j]
}

/// Inserts `x` at its place in a strictly increasing list, unless present.
pub fn insert_rate(rates: &mut Vec<u32>, x: u32)
    requires
        strictly_increasing(old(rates)@),
    ensures
        strictly_increasing(final(rates)@),
        final(rates)@.to_set() == old(rates)@.to_set().insert(x),
{
    let mut p: usize = 0;
    while p < rates.len() && rates[p] < x
        invariant
            p <= rates@.len(),
            forall|j: int| 0 <= j < p ==> rates@[j] < x,
        decreases rates@.len() - p,
    {
        p = p + 1;
    }
    if p < rates.len() && rates[p] == x {
        assert(rates@.to_set().insert(x) =~= rates@.to_set());
        return;
    }
    let ghost before = rates@;
    rates.insert(p, x);
    assert(rates@ == before.insert(p as int, x));
    assert forall|i: int, j: int| 0 <= i < j < rates@.len() implies rates@[i] < rates@[j] by {
        if j < p {
        } else if j == p {
        } else if i < p {
            assert(rates@[j] == before[j - 1]);
        } else if i == p {
            assert(rates@[j] == before[j - 1]);
            assert(before[p as int] > x);
            if j - 1 > p {
                assert(before[p as int] < before[j - 1]);
            }
        } else {
            assert(rates@[i] == before[i - 1]);
            assert(rates@[j] == before[j - 1]);
        }
    }
    assert forall|y: u32| #[trigger] rates@.to_set().contains(y) == before.to_set().insert(
        x,
    ).contains(y) by {
        if rates@.to_set().contains(y) {
            let k = choose|k: int| 0 <= k < rates@.len() && rates@[k] == y;
            if k < p {
                assert(before[k] == y);
            } else if k > p {
                assert(before[k - 1] == y);
            }
        }
        if before.to_set().contains(y) {
            let k = choose|k: int| 0 <= k < before.len() && before[k] == y;
            if k < p {
                assert(rates@[k] == y);
            } else {
                assert(rates@[k + 1] == y);
            }
        }
        if y == x {
            assert(rates@[p as int] == x);
        }
    }
    assert(rates@.to_set() =~= before.to_set().insert(x));
}

/// The allowed rates of a PipeWire value such as `[ 44100, 48000 ]` or
/// `[ 44100 48000 ]`: the listed rates between 8000 and 384000, without
/// repeats, in increasing order.
pub fn parse_allowed_rates(value: &str) -> (r: Vec<u32>)
    ensures
        strictly_increasing(r@),
        r@.to_set() == listed_rates(value@),
{
    let cs = chars_of(value);
    allowed_rates_of(&cs)
}

/// The allowed rates of a PipeWire value given as characters.
fn allowed_rates_of(cs: &Vec<char>) -> (r: Vec<u32>)
    ensures
        strictly_increasing(r@),
        r@.to_set() == listed_rates(cs@),
{
    let ghost value = cs;
    let t1 = trim_chars(&cs);
    let t2 = trim_start_matching(&t1, '[');
    let t3 = trim_end_matching(&t2, ']');
    let body = trim_chars(&t3);
    assert(body@ == rates_body(value@));
    let mut seps: Vec<char> = Vec::new();
    seps.push(',');
    seps.push(' ');
    assert(seps@ == seq![',', ' ']);
    let pieces = split_chars(&body, &seps);
    let ghost pv = char_views(pieces@);
    assert(pv == rate_pieces(value@));
    let mut rates: Vec<u32> = Vec::new();
    let mut i: usize = 0;
    while i < pieces.len()
        invariant
            i <= pieces@.len(),
            pv == char_views(pieces@),
            pv == rate_pieces(value@),
            strictly_increasing(rates@),
            forall|r: u32|
                rates@.to_set().contains(r) <==> exists|k: int|
                    0 <= k < i && piece_rate(#[trigger] pv[k]) == Some(r),
        decreases pieces@.len() - i,
    {
        let piece = trim_chars(&pieces[i]);
        assert(pieces@[i as int]@ == pv[i as int]);
        let parsed = parse_u32_chars(&piece);
        let ghost old_set = rates@.to_set();
        match parsed {
            Some(rate) => {
                if 8000 <= rate && rate <= 384000 {
                    insert_rate(&mut rates, rate);
                    assert(piece_rate(pv[i as int]) == Some(rate));
                } else {
                    assert(piece_rate(pv[i as int]) is None);
                }
            },
            None => {
                assert(piece_rate(pv[i as int]) is None);
            },
        }
        assert forall|r: u32| rates@.to_set().contains(r) <==> exists|k: int|
            0 <= k < i + 1 && piece_rate(#[trigger] pv[k]) == Some(r) by {
            if exists|k: int| 0 <= k < i + 1 && piece_rate(#[trigger] pv[k]) == Some(r) {
                let k = choose|k: int| 0 <= k < i + 1 && piece_rate(#[trigger] pv[k]) == Some(r);
                if k < i {
                    assert(old_set.contains(r));
                }
            }
            if old_set.contains(r) {
                let k = choose|k: int| 0 <= k < i && piece_rate(#[trigger] pv[k]) == Some(r);
                assert(0 <= k < i + 1);
            }
        }
        i = i + 1;
    }
    assert(rates@.to_set() =~= listed_rates(value@));
    rates
}

/// The pattern occurs somewhere in the text.
pub open spec fn contains_text(h: Seq<char>, p: Seq<char>) -> bool {
    find_from(h, p, 0) is Some
}

/// The value of a `clock.allowed-rates` line of `pw-metadata` output: the
/// text between `value:'` and the next `' type:`.
pub open spec fn line_value(line: Seq<char>) -> Option<Seq<char>> {
    if contains_text(line, "clock.allowed-rates"@) && contains_text(line, "value:"@) {
        match find_from(line, "value:'"@, 0) {
            Some(st) => match find_from(line.skip(st + 7), "' type:"@, 0) {
                Some(e) => Some(line.subrange(st + 7, st + 7 + e)),
                None => None,
            },
            None => None,
        }
    } else {
        None
    }
}

/// The rates a line of `pw-metadata` output lists.
pub open spec fn line_rates(line: Seq<char>) -> Set<u32> {
    match line_value(line) {
        Some(v) => listed_rates(v),
        None => Set::empty(),
    }
}

/// The rates of the first line that lists any.
pub open spec fn first_listed_rates(ls: Seq<Seq<char>>) -> Option<Set<u32>>
    decreases ls.len(),
{
    if ls.len() == 0 {
        None
    } else if exists|r: u32| line_rates(ls[0]).contains(r) {
        Some(line_rates(ls[0]))
    } else {
        first_listed_rates(ls.drop_first())
    }
}

/// The value of a line of `pw-metadata` output, when it holds the allowed rates.
fn value_of_line(line: &Vec<char>) -> (r: Option<Vec<char>>)
    ensures
        match r {
            Some(v) => line_value(line@) == Some(v@),
            None => line_value(line@) is None,
        },
{
    let key = chars_of("clock.allowed-rates");
    let value_tag = chars_of("value:");
    let open_tag = chars_of("value:'");
    let close_tag = chars_of("' type:");
    proof {
        reveal_strlit("value:'");
    }
    if find_chars(line, &key).is_none() || find_chars(line, &value_tag).is_none() {
        return None;
    }
    match find_chars(line, &open_tag) {
        Some(st) => {
            proof {
                crate::scan::lemma_find_from_found(line@, open_tag@, 0);
                assert(open_tag@.len() == 7);
                assert(st + 7 <= line@.len());
                assert(line@.len() == line.len());
            }
            let value_start = st + 7;
            let rest = slice_chars(line, value_start, line.len());
            assert(rest@ == line@.skip(value_start as int));
            match find_chars(&rest, &close_tag) {
                Some(e) => {
                    proof {
                        crate::scan::lemma_find_from_found(rest@, close_tag@, 0);
                    }
                    Some(slice_chars(line, value_start, value_start + e))
                },
                None => None,
            }
        },
        None => None,
    }
}

/// The allowed rates in the output of `pw-metadata -n settings`: those of the
/// first `clock.allowed-rates` line that lists any, in increasing order.
pub fn rates_from_metadata_output(stdout: &str) -> (r: Option<Vec<u32>>)
    ensures
        match r {
            Some(v) => first_listed_rates(lines(stdout@)) == Some(v@.to_set()) && strictly_increasing(
                v@,
            ),
            None => first_listed_rates(lines(stdout@)) is None,
        },
{
    let cs = chars_of(stdout);
    let ls = lines_of(&cs);
    let ghost lv = char_views(ls@);
    let mut i: usize = 0;
    assert(lv.skip(0) == lv);
    while i < ls.len()
        invariant
            i <= ls@.len(),
            lv == char_views(ls@),
            lv == lines(stdout@),
            first_listed_rates(lv) == first_listed_rates(lv.skip(i as int)),
        decreases ls@.len() - i,
    {
        assert(ls@[i as int]@ == lv[i as int]);
        assert(lv.skip(i as int)[0] == lv[i as int]);
        assert(lv.skip(i as int).drop_first() == lv.skip(i + 1));
        match value_of_line(&ls[i]) {
            Some(v) => {
                let rates = allowed_rates_of(&v);
                if rates.len() > 0 {
                    assert(line_rates(lv[i as int]) == rates@.to_set());
                    assert(rates@.to_set().contains(rates@[0]));
                    assert(line_rates(lv.skip(i as int)[0]).contains(rates@[0]));
                    return Some(rates);
                }
                assert forall|x: u32| !line_rates(lv[i as int]).contains(x) by {
                    if line_rates(lv[i as int]).contains(x) {
                        let k = choose|k: int| 0 <= k < rates@.len() && rates@[k] == x;
                    }
                }
            },
            None => {},
        }
        i = i + 1;
    }
    None
}

/// The common rates assumed when PipeWire reports no allowed rates.
pub open spec fn common_rates() -> Seq<u32> {
    seq![44100u32, 48000, 88200, 96000, 176400, 192000, 352800, 384000]
}

/// The supported rates: those `pw-metadata` reported when it reported any,
/// else those the PipeWire API reported when it reported any, else the
/// common rates.
pub fn supported_rates_from(from_metadata: Option<Vec<u32>>, from_api: Option<Vec<u32>>) -> (r: Vec<
    u32,
>)
    ensures
        r@ == match (from_metadata, from_api) {
            (Some(m), _) if m@.len() > 0 => m@,
            (_, Some(a)) if a@.len() > 0 => a@,
            _ => common_rates(),
        },
{
    match from_metadata {
        Some(m) => {
            if m.len() > 0 {
                return m;
            }
        },
        None => {},
    }
    match from_api {
        Some(a) => {
            if a.len() > 0 {
                return a;
            }
        },
        None => {},
    }
    let mut r: Vec<u32> = Vec::new();
    r.push(44100);
    r.push(48000);
    r.push(88200);
    r.push(96000);
    r.push(176400);
    r.push(192000);
    r.push(352800);
    r.push(384000);
    assert(r@ =~= common_rates());
    r
}

/// The name under which a sample-rate change is logged: setting rate 0
/// resets the rate to automatic.
pub fn sample_rate_operation(rate: u32) -> (r: &'static str)
    ensures
        r@ == (if rate == 0 {
            "reset_sample_rate"@
        } else {
            "set_sample_rate"@
        }),
{
    if rate == 0 {
        "reset_sample_rate"
    } else {
        "set_sample_rate"
    }
}

/// The details logged for a successful sample-rate change.
pub fn sample_rate_details(rate: u32) -> (r: String)
    ensures
        r@ == (if rate == 0 {
            "automatic"@
        } else {
            crate::text::decimal(rate as nat) + " Hz"@
        }),
{
    let mut s = String::new();
    if rate == 0 {
        push_str(&mut s, "automatic");
    } else {
        push_decimal(&mut s, rate as u64);
        push_str(&mut s, " Hz");
    }
    s
}

/// The view of optional rates.
pub open spec fn rates_view(rates: Option<Vec<u32>>) -> Option<Seq<u32>> {
    match rates {
        Some(v) => Some(v@),
        None => None,
    }
}

/// The view of a discovery's outcome.
pub open spec fn found_view(found: Result<Vec<u32>, String>) -> Result<Seq<u32>, Seq<char>> {
    match found {
        Ok(v) => Ok(v@),
        Err(e) => Err(e@),
    }
}

/// Initializing the cache: rates cached already are kept and given back;
/// otherwise the rates found are cached, or the error given back.
pub open spec fn init_spec(cached: Option<Seq<u32>>, found: Result<Seq<u32>, Seq<char>>) -> (
    Option<Seq<u32>>,
    Result<Seq<u32>, Seq<char>>,
) {
    match cached {
        Some(c) => (Some(c), Ok(c)),
        None => match found {
            Ok(v) => (Some(v), Ok(v)),
            Err(e) => (None, Err(e)),
        },
    }
}

/// The rates PipeWire supports, found once when the program starts and
/// kept for the rest of its run.
#[derive(Debug)]
pub struct SupportedRatesCache {
    rates: Option<Vec<u32>>,
}

impl SupportedRatesCache {
    /// The cached rates, if any.
    pub closed spec fn cached(&self) -> Option<Seq<u32>> {
        rates_view(self.rates)
    }

    /// Nothing cached yet.
    pub fn new() -> (r: Self)
        ensures
            r.cached() is None,
    {
        SupportedRatesCache { rates: None }
    }

    /// Caches the rates found by a discovery, unless rates are cached
    /// already; gives back the cached rates, or the discovery's error.
    pub fn initialize_supported_rates(&mut self, found: Result<Vec<u32>, String>) -> (r: Result<
        Vec<u32>,
        String,
    >)
        ensures
            (final(self).cached(), found_view(r)) == init_spec(old(self).cached(), found_view(found)),
    {
        match &self.rates {
            Some(c) => {
                return Ok(c.clone());
            },
            None => {},
        }
        match found {
            Ok(v) => {
                self.rates = Some(v.clone());
                Ok(v)
            },
            Err(e) => Err(e),
        }
    }

    /// The cached rates; `None` before the cache was initialized.
    pub fn get_supported_rates(&self) -> (r: Option<Vec<u32>>)
        ensures
            rates_view(r) == self.cached(),
    {
        match &self.rates {
            Some(c) => Some(c.clone()),
            None => None,
        }
    }
}

/// Once rates are cached, every later initialization gives them back and
/// keeps them, whatever a new discovery found.
pub proof fn lemma_rates_cached_once(
    cached: Option<Seq<u32>>,
    first: Result<Seq<u32>, Seq<char>>,
    second: Result<Seq<u32>, Seq<char>>,
)
    ensures
        ({
            let (c1, r1) = init_spec(cached, first);
            let (c2, r2) = init_spec(c1, second);
            r1 is Ok ==> c2 == c1 && r2 == r1
        }),
{
}

/// The rates PipeWire is assumed to support before any is discovered.
pub open spec fn base_rates() -> Seq<u32> {
    seq![44100u32, 48000, 88200, 96000, 192000]
}

/// The base rates with the discovered ones: sorted, each once.
pub fn merge_discovered_rates(discovered: &Vec<u32>) -> (r: Vec<u32>)
    ensures
        strictly_increasing(r@),
        r@.to_set() == base_rates().to_set() + discovered@.to_set(),
{
    let mut base: Vec<u32> = Vec::new();
    base.push(44100);
    base.push(48000);
    base.push(88200);
    base.push(96000);
    base.push(192000);
    assert(base@ == base_rates());
    let mut r: Vec<u32> = Vec::new();
    let mut i: usize = 0;
    while i < base.len()
        invariant
            i <= base@.len(),
            strictly_increasing(r@),
            r@.to_set() == base@.take(i as int).to_set(),
        decreases base.len() - i,
    {
        insert_rate(&mut r, base[i]);
        assert(base@.take(i as int + 1) == base@.take(i as int).push(base@[i as int]));
        proof {
            base@.take(i as int).lemma_push_to_set_commute(base@[i as int]);
        }
        i = i + 1;
    }
    assert(base@.take(i as int) == base@);
    let mut j: usize = 0;
    while j < discovered.len()
        invariant
            j <= discovered@.len(),
            strictly_increasing(r@),
            r@.to_set() == base_rates().to_set() + discovered@.take(j as int).to_set(),
        decreases discovered.len() - j,
    {
        insert_rate(&mut r, discovered[j]);
        assert(discovered@.take(j as int + 1) == discovered@.take(j as int).push(
            discovered@[j as int],
        ));
        proof {
            discovered@.take(j as int).lemma_push_to_set_commute(discovered@[j as int]);
        }
        assert(r@.to_set() =~= base_rates().to_set() + discovered@.take(j as int + 1).to_set());
        j = j + 1;
    }
    assert(discovered@.take(j as int) == discovered@);
    r
}

/// A figure that can be a sample rate.
pub open spec fn plausible_rate(x: u32) -> bool {
    8000 <= x <= 384000
}

/// The rates after each plausible figure that is not there yet was added,
/// in order; figures that did not read as numbers are `None`.
pub open spec fn add_rates(rates: Seq<u32>, figures: Seq<Option<u32>>) -> Seq<u32>
    decreases figures.len(),
{
    if figures.len() == 0 {
        rates
    } else {
        let r = add_rates(rates, figures.drop_last());
        match figures.last() {
            Some(x) => if plausible_rate(x) && !r.contains(x) {
                r.push(x)
            } else {
                r
            },
            None => r,
        }
    }
}

fn add_rate_figure(rates: &mut Vec<u32>, figure: Option<u32>)
    ensures
        final(rates)@ == match figure {
            Some(x) => if plausible_rate(x) && !old(rates)@.contains(x) {
                old(rates)@.push(x)
            } else {
                old(rates)@
            },
            None => old(rates)@,
        },
{
    match figure {
        Some(x) => {
            if 8000 <= x && x <= 384000 && !contains_rate(rates.as_slice(), x) {
                rates.push(x);
            }
        },
        None => {},
    }
}

fn add_rate_figures(rates: &mut Vec<u32>, figures: &Vec<Option<u32>>)
    ensures
        final(rates)@ == add_rates(old(rates)@, figures@),
{
    let ghost start = rates@;
    let mut i: usize = 0;
    while i < figures.len()
        invariant
            i <= figures@.len(),
            rates@ == add_rates(start, figures@.take(i as int)),
        decreases figures.len() - i,
    {
        assert(figures@.take(i as int + 1).drop_last() == figures@.take(i as int));
        add_rate_figure(rates, figures[i]);
        i = i + 1;
    }
    assert(figures@.take(i as int) == figures@);
}

/// The figures of the words of a format string.
pub open spec fn word_figures(s: Seq<char>) -> Seq<Option<u32>> {
    words(s).map_values(|w: Seq<char>| parse_u32(w))
}

/// Adds the rates a format string such as `S32LE 48000` names: each
/// white-space separated word that reads as a plausible rate.
pub fn extract_rates_from_format_string(format_str: &str, rates: &mut Vec<u32>)
    ensures
        final(rates)@ == add_rates(old(rates)@, word_figures(format_str@)),
{
    let cs = chars_of(format_str);
    let ws = words_of(&cs);
    let ghost wv = char_views(ws@);
    let mut figures: Vec<Option<u32>> = Vec::new();
    let mut i: usize = 0;
    while i < ws.len()
        invariant
            i <= ws@.len(),
            wv == char_views(ws@),
            wv == words(cs@),
            cs@ == format_str@,
            figures@ == wv.take(i as int).map_values(|w: Seq<char>| parse_u32(w)),
        decreases ws.len() - i,
    {
        assert(wv[i as int] == ws@[i as int]@);
        let f = parse_u32_chars(&ws[i]);
        figures.push(f);
        assert(figures@ =~= wv.take(i as int + 1).map_values(|w: Seq<char>| parse_u32(w)));
        i = i + 1;
    }
    assert(wv.take(i as int) == wv);
    add_rate_figures(rates, &figures);
}

/// The text of the first group of each match of a regular expression in a
/// text, in order (`None` for a match where the group took no part); `None`
/// when the expression does not compile. The `regex` crate computes it.
pub uninterp spec fn regex_first_groups(pattern: Seq<char>, text: Seq<char>) -> Option<
    Seq<Option<Seq<char>>>,
>;

/// The view of captured groups.
pub open spec fn groups_view(g: Option<Vec<Option<String>>>) -> Option<Seq<Option<Seq<char>>>> {
    match g {
        Some(v) => Some(
            v@.map_values(
                |x: Option<String>|
                    match x {
                        Some(t) => Some(t@),
                        None => None,
                    },
            ),
        ),
        None => None,
    }
}

/// Trusted: compiles `pattern` with `regex::Regex::new` and, if it
/// compiles, takes group 1 of each match `Regex::captures_iter` finds in
/// `text`. The result is named `regex_first_groups`, a function of the
/// pattern and the text alone.
#[verifier::external_body]
fn capture_first_groups(pattern: &str, text: &str) -> (r: Option<Vec<Option<String>>>)
    ensures
        groups_view(r) == regex_first_groups(pattern@, text@),
{
    match regex::Regex::new(pattern) {
        Ok(re) => Some(
            re.captures_iter(text).map(|c| c.get(1).map(|m| m.as_str().to_string())).collect(),
        ),
        Err(_) => None,
    }
}

/// A captured figure read as a number and multiplied by `scale`; `None`
/// when it does not read as a number or the product does not fit in `u32`.
pub open spec fn scaled_figure(g: Option<Seq<char>>, scale: u32) -> Option<u32> {
    match g {
        Some(t) => match parse_u32(t) {
            Some(v) => if v * scale <= u32::MAX {
                Some((v * scale) as u32)
            } else {
                None
            },
            None => None,
        },
        None => None,
    }
}

/// The figures of captured groups, scaled.
pub open spec fn captured_figures(groups: Option<Seq<Option<Seq<char>>>>, scale: u32) -> Seq<
    Option<u32>,
> {
    match groups {
        Some(gs) => gs.map_values(|g: Option<Seq<char>>| scaled_figure(g, scale)),
        None => Seq::empty(),
    }
}

fn scaled_figures(groups: &Option<Vec<Option<String>>>, scale: u32) -> (r: Vec<Option<u32>>)
    ensures
        r@ == captured_figures(groups_view(*groups), scale),
{
    let mut r: Vec<Option<u32>> = Vec::new();
    match groups {
        Some(gs) => {
            let ghost gv = groups_view(*groups)->0;
            let mut i: usize = 0;
            while i < gs.len()
                invariant
                    i <= gs@.len(),
                    gv == groups_view(*groups)->0,
                    *groups == Some(*gs),
                    gv.len() == gs@.len(),
                    r@ == gv.take(i as int).map_values(
                        |g: Option<Seq<char>>| scaled_figure(g, scale),
                    ),
                decreases gs.len() - i,
            {
                let f = match &gs[i] {
                    Some(t) => match crate::scan::parse_u32_str(t.as_str()) {
                        Some(v) => v.checked_mul(scale),
                        None => None,
                    },
                    None => None,
                };
                assert(f == scaled_figure(gv[i as int], scale));
                r.push(f);
                assert(r@ =~= gv.take(i as int + 1).map_values(
                    |g: Option<Seq<char>>| scaled_figure(g, scale),
                ));
                i = i + 1;
            }
            assert(gv.take(i as int) == gv);
        },
        None => {},
    }
    r
}

/// The figures a device description names, pattern by pattern: a number
/// before `Hz` (spaces allowed between), then a number before `kHz`, then
/// a number before `khz` (spaces allowed), the last two in kilohertz.
pub open spec fn description_figures(desc: Seq<char>) -> Seq<Option<u32>> {
    captured_figures(regex_first_groups("(\\d+)\\s*Hz"@, desc), 1) + captured_figures(
        regex_first_groups("(\\d+)kHz"@, desc),
        1000,
    ) + captured_figures(regex_first_groups("(\\d+)\\s*khz"@, desc), 1000)
}

/// Adds the rates named by the groups captured from a device description:
/// first those of the hertz pattern, then those of the two kilohertz
/// patterns, multiplied by 1000 (a product too large for `u32` is left out).
pub fn add_rates_from_groups(
    hz: &Option<Vec<Option<String>>>,
    khz: &Option<Vec<Option<String>>>,
    khz_lower: &Option<Vec<Option<String>>>,
    rates: &mut Vec<u32>,
)
    ensures
        final(rates)@ == add_rates(
            old(rates)@,
            captured_figures(groups_view(*hz), 1) + captured_figures(groups_view(*khz), 1000)
                + captured_figures(groups_view(*khz_lower), 1000),
        ),
{
    let mut figures = scaled_figures(hz, 1);
    let mut second = scaled_figures(khz, 1000);
    let mut third = scaled_figures(khz_lower, 1000);
    figures.append(&mut second);
    figures.append(&mut third);
    add_rate_figures(rates, &figures);
}

/// Adds the rates a device description such as `Analog Stereo 48000 Hz`
/// or `96kHz` names. A kilohertz figure too large for `u32` once
/// multiplied is left out, as no sample rate could be that high.
pub fn extract_rates_from_description(desc: &str, rates: &mut Vec<u32>)
    ensures
        final(rates)@ == add_rates(old(rates)@, description_figures(desc@)),
{
    let hz = capture_first_groups("(\\d+)\\s*Hz", desc);
    let khz = capture_first_groups("(\\d+)kHz", desc);
    let khz_lower = capture_first_groups("(\\d+)\\s*khz", desc);
    add_rates_from_groups(&hz, &khz, &khz_lower, rates);
}

} // verus!
