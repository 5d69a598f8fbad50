//! Caches for strings that are cheap to keep and expensive to rebuild every
//! frame: fillers, queue positions, file types, durations and volume bars.

use std::collections::HashMap;
use vstd::prelude::*;
use crate::text::{
    decimal, push_char, push_decimal, push_str, push_two_digits, repeat, repeat_char, two_digits,
};
use crate::assoc::{find_key, has_key, keys_distinct, lemma_value_at, value_of};
use crate::casing::{lowercase, to_lowercase, to_uppercase, uppercase};

verus! {

broadcast use vstd::std_specs::hash::group_hash_axioms;

/// Widest filler kept (inclusive).
pub const MAX_FILLER_WIDTH: usize = 256;

/// Widest progress bar kept (inclusive).
pub const MAX_PROGRESS_BAR_WIDTH: usize = 256;

/// Number of queue position prefixes kept.
pub const MAX_QUEUE_POSITION: usize = 1000;

/// Horizontal line character used for dashes.
pub const DASH: char = '\u{2500}';

/// Heavy horizontal line character used for progress bars.
pub const PROGRESS_CHAR: char = '\u{2501}';

/// Full block character used for volume bars.
pub const BLOCK: char = '\u{2588}';

/// What a filler of width `n` made of `c` is, given the widest one kept.
pub open spec fn filler(c: char, n: nat, max: nat) -> Seq<char> {
    if n <= max {
        repeat(c, n)
    } else {
        Seq::empty()
    }
}

/// Pre-generated filler strings (spaces, dashes, progress characters).
#[derive(Debug)]
pub struct FillerCache {
    spaces: Vec<String>,
    dashes: Vec<String>,
    progress_chars: Vec<String>,
}

/// `v[n]` is `n` copies of `c`, for every `n <= max`.
pub open spec fn repeats_table(v: Seq<String>, c: char, max: nat) -> bool {
    &&& v.len() == max + 1
    &&& forall|n: int| 0 <= n < v.len() ==> (#[trigger] v[n])@ == repeat(c, n as nat)
}

/// For each length from 0 to `max`, that many copies of `c`.
pub open spec fn repeats_upto(c: char, max: nat) -> Seq<Seq<char>> {
    Seq::new(max + 1, |n: int| repeat(c, n as nat))
}

fn build_repeats(c: char, max: usize) -> (r: Vec<String>)
    requires
        max < usize::MAX,
    ensures
        repeats_table(r@, c, max as nat),
{
    let mut r: Vec<String> = Vec::new();
    let mut n: usize = 0;
    while n <= max
        invariant
            n <= max + 1,
            max < usize::MAX,
            r@.len() == n,
            forall|k: int| 0 <= k < r@.len() ==> (#[trigger] r@[k])@ == repeat(c, k as nat),
        decreases max + 1 - n,
    {
        r.push(repeat_char(c, n));
        n = n + 1;
    }
    r
}

impl FillerCache {
    #[verifier::type_invariant]
    spec fn inv(self) -> bool {
        &&& repeats_table(self.spaces@, ' ', MAX_FILLER_WIDTH as nat)
        &&& repeats_table(self.dashes@, DASH, MAX_FILLER_WIDTH as nat)
        &&& repeats_table(self.progress_chars@, PROGRESS_CHAR, MAX_PROGRESS_BAR_WIDTH as nat)
    }

    /// The kept spaces, dashes and progress-bar strings, by length.
    pub closed spec fn tables(&self) -> (Seq<Seq<char>>, Seq<Seq<char>>, Seq<Seq<char>>) {
        (
            self.spaces@.map_values(|s: String| s@),
            self.dashes@.map_values(|s: String| s@),
            self.progress_chars@.map_values(|s: String| s@),
        )
    }

    /// Create the cache with every filler generated: for each length up to
    /// the widest kept, that many spaces, dashes and progress characters.
    pub fn new() -> (r: Self)
        ensures
            r.tables() == (
                repeats_upto(' ', MAX_FILLER_WIDTH as nat),
                repeats_upto(DASH, MAX_FILLER_WIDTH as nat),
                repeats_upto(PROGRESS_CHAR, MAX_PROGRESS_BAR_WIDTH as nat),
            ),
    {
        let r = Self {
            spaces: build_repeats(' ', MAX_FILLER_WIDTH),
            dashes: build_repeats(DASH, MAX_FILLER_WIDTH),
            progress_chars: build_repeats(PROGRESS_CHAR, MAX_PROGRESS_BAR_WIDTH),
        };
        assert(r.spaces@.map_values(|s: String| s@) =~= repeats_upto(' ', MAX_FILLER_WIDTH as nat));
        assert(r.dashes@.map_values(|s: String| s@) =~= repeats_upto(DASH, MAX_FILLER_WIDTH as nat));
        assert(r.progress_chars@.map_values(|s: String| s@) =~= repeats_upto(
            PROGRESS_CHAR,
            MAX_PROGRESS_BAR_WIDTH as nat,
        ));
        r
    }

    /// A string of `n` spaces; empty beyond the widest kept filler.
    pub fn spaces(&self, n: usize) -> (r: &str)
        ensures
            r@ == filler(' ', n as nat, MAX_FILLER_WIDTH as nat),
    {
        proof {
            use_type_invariant(self);
            reveal_strlit("");
        }
        if n < self.spaces.len() {
            self.spaces[n].as_str()
        } else {
            ""
        }
    }

    /// A string of `n` horizontal dashes; empty beyond the widest kept filler.
    pub fn dashes(&self, n: usize) -> (r: &str)
        ensures
            r@ == filler(DASH, n as nat, MAX_FILLER_WIDTH as nat),
    {
        proof {
            use_type_invariant(self);
            reveal_strlit("");
        }
        if n < self.dashes.len() {
            self.dashes[n].as_str()
        } else {
            ""
        }
    }

    /// A string of `n` progress bar characters; empty beyond the widest kept bar.
    pub fn progress_chars(&self, n: usize) -> (r: &str)
        ensures
            r@ == filler(PROGRESS_CHAR, n as nat, MAX_PROGRESS_BAR_WIDTH as nat),
    {
        proof {
            use_type_invariant(self);
            reveal_strlit("");
        }
        if n < self.progress_chars.len() {
            self.progress_chars[n].as_str()
        } else {
            ""
        }
    }
}

impl Default for FillerCache {
    fn default() -> (r: Self) {
        Self::new()
    }
}

/// The prefix shown before queue entry `index` (zero-based): "1. ", "2. ", ...
pub open spec fn position_prefix(index: nat) -> Seq<char> {
    decimal(index + 1) + seq!['.', ' ']
}

/// The prefix of queue entry `index`, with "?. " beyond the kept ones.
pub open spec fn queue_position_text(index: nat) -> Seq<char> {
    if index < MAX_QUEUE_POSITION {
        position_prefix(index)
    } else {
        seq!['?', '.', ' ']
    }
}

/// Pre-generated queue position prefixes.
#[derive(Debug)]
pub struct QueuePositionCache {
    positions: Vec<String>,
}

fn make_position(index: usize) -> (r: String)
    requires
        index < MAX_QUEUE_POSITION,
    ensures
        r@ == position_prefix(index as nat),
{
    let mut s = String::new();
    push_decimal(&mut s, (index + 1) as u64);
    push_char(&mut s, '.');
    push_char(&mut s, ' ');
    assert(s@ == position_prefix(index as nat));
    s
}

impl QueuePositionCache {
    #[verifier::type_invariant]
    spec fn inv(self) -> bool {
        &&& self.positions@.len() == MAX_QUEUE_POSITION
        &&& forall|n: int|
            0 <= n < self.positions@.len() ==> (#[trigger] self.positions@[n])@ == position_prefix(
                n as nat,
            )
    }

    /// The kept prefixes, by index.
    pub closed spec fn prefixes(&self) -> Seq<Seq<char>> {
        self.positions@.map_values(|s: String| s@)
    }

    /// Create the cache with every kept prefix generated: "1. " to the
    /// prefix of the last kept position.
    pub fn new() -> (r: Self)
        ensures
            r.prefixes() == Seq::new(MAX_QUEUE_POSITION as nat, |n: int| position_prefix(n as nat)),
    {
        let mut positions: Vec<String> = Vec::new();
        let mut n: usize = 0;
        while n < MAX_QUEUE_POSITION
            invariant
                n <= MAX_QUEUE_POSITION,
                positions@.len() == n,
                forall|k: int|
                    0 <= k < positions@.len() ==> (#[trigger] positions@[k])@ == position_prefix(
                        k as nat,
                    ),
            decreases MAX_QUEUE_POSITION - n,
        {
            positions.push(make_position(n));
            n = n + 1;
        }
        let r = Self { positions };
        assert(r.positions@.map_values(|s: String| s@) =~= Seq::new(
            MAX_QUEUE_POSITION as nat,
            |n: int| position_prefix(n as nat),
        ));
        r
    }

    /// The prefix for a zero-based index (index 0 gives "1. ").
    pub fn get(&self, index: usize) -> (r: &str)
        ensures
            r@ == queue_position_text(index as nat),
    {
        proof {
            use_type_invariant(self);
            reveal_strlit("?. ");
        }
        if index < self.positions.len() {
            self.positions[index].as_str()
        } else {
            "?. "
        }
    }
}

impl Default for QueuePositionCache {
    fn default() -> (r: Self) {
        Self::new()
    }
}

/// The audio formats whose extensions are cached from the start.
pub open spec fn common_formats() -> Seq<Seq<char>> {
    seq![
        "flac"@,
        "mp3"@,
        "opus"@,
        "ogg"@,
        "m4a"@,
        "aac"@,
        "wav"@,
        "aiff"@,
        "wma"@,
        "ape"@,
        "wv"@,
        "dsf"@,
        "dff"@,
    ]
}

/// Cached upper-case file extensions, keyed by the lower-case extension.
#[derive(Debug)]
pub struct FileTypeCache {
    extensions: Vec<(String, String)>,
}

impl FileTypeCache {
    #[verifier::type_invariant]
    spec fn inv(self) -> bool {
        keys_distinct(self.extensions@)
    }

    /// The cached (key, display) pairs, in insertion order.
    pub closed spec fn entries(&self) -> Seq<(String, String)> {
        self.extensions@
    }

    /// Whether a key is cached.
    pub closed spec fn has(&self, key: Seq<char>) -> bool {
        has_key(self.extensions@, key)
    }

    /// The display string cached under a key.
    pub closed spec fn cached(&self, key: Seq<char>) -> Seq<char> {
        value_of(self.extensions@, key)@
    }

    fn add(&mut self, key: &str, display: String)
        requires
            !old(self).has(key@),
        ensures
            forall|k: Seq<char>| #[trigger] final(self).has(k) <==> (old(self).has(k) || k == key@),
            forall|k: Seq<char>|
                #[trigger] final(self).has(k) ==> final(self).cached(k) == if k == key@ {
                    display@
                } else {
                    old(self).cached(k)
                },
    {
        proof {
            use_type_invariant(&*self);
        }
        let ghost old_entries = self.extensions@;
        let mut entries: Vec<(String, String)> = Vec::new();
        std::mem::swap(&mut entries, &mut self.extensions);
        entries.push((key.to_owned(), display));
        proof {
            let e = entries@;
            assert(keys_distinct(e));
            assert forall|k: Seq<char>| #[trigger] has_key(e, k) implies value_of(e, k)@ == if k
                == key@ {
                display@
            } else {
                value_of(old_entries, k)@
            } by {
                if k == key@ {
                    lemma_value_at(e, k, (e.len() - 1) as int);
                } else {
                    let i = choose|i: int| 0 <= i < e.len() && (#[trigger] e[i]).0@ == k;
                    assert(e[i] == old_entries[i]);
                    lemma_value_at(e, k, i);
                    lemma_value_at(old_entries, k, i);
                }
            }
            assert forall|k: Seq<char>| #[trigger] has_key(e, k) <==> (has_key(old_entries, k) || k
                == key@) by {
                if has_key(old_entries, k) {
                    let i = choose|i: int|
                        0 <= i < old_entries.len() && (#[trigger] old_entries[i]).0@ == k;
                    assert(e[i] == old_entries[i]);
                }
                if k == key@ {
                    assert(e[e.len() - 1].0@ == k);
                }
                if has_key(e, k) && k != key@ {
                    let i = choose|i: int| 0 <= i < e.len() && (#[trigger] e[i]).0@ == k;
                    assert(e[i] == old_entries[i]);
                }
            }
        }
        std::mem::swap(&mut entries, &mut self.extensions);
    }

    /// Create the cache with the common audio formats already present: each
    /// of them, and nothing else, cached as its upper-case form.
    pub fn new() -> (r: Self)
        ensures
            forall|k: Seq<char>| #[trigger] r.has(k) <==> common_formats().contains(k),
            forall|k: Seq<char>| #[trigger] r.has(k) ==> r.cached(k) == uppercase(k),
    {
        let mut r = Self { extensions: Vec::new() };
        let common = [
            "flac",
            "mp3",
            "opus",
            "ogg",
            "m4a",
            "aac",
            "wav",
            "aiff",
            "wma",
            "ape",
            "wv",
            "dsf",
            "dff",
        ];
        let ghost cv = common@.map_values(|e: &str| e@);
        assert(cv =~= common_formats());
        let mut i: usize = 0;
        while i < 13
            invariant
                i <= 13,
                common@.len() == 13,
                cv == common@.map_values(|e: &str| e@),
                forall|k: Seq<char>| #[trigger] r.has(k) <==> cv.take(i as int).contains(k),
                forall|k: Seq<char>| #[trigger] r.has(k) ==> r.cached(k) == uppercase(k),
            decreases 13 - i,
        {
            let ext = common[i];
            assert(cv[i as int] == ext@);
            assert forall|k: Seq<char>| cv.take(i as int + 1).contains(k) <==> (cv.take(
                i as int,
            ).contains(k) || k == ext@) by {
                if cv.take(i as int + 1).contains(k) {
                    let j = choose|j: int| 0 <= j < i + 1 && #[trigger] cv.take(i as int + 1)[j] == k;
                    if j < i {
                        assert(cv.take(i as int)[j] == k);
                    }
                }
                if cv.take(i as int).contains(k) {
                    let j = choose|j: int| 0 <= j < i && #[trigger] cv.take(i as int)[j] == k;
                    assert(cv.take(i as int + 1)[j] == k);
                }
                if k == ext@ {
                    assert(cv.take(i as int + 1)[i as int] == k);
                }
            }
            if r.lookup(ext).is_none() {
                let up = to_uppercase(ext);
                r.add(ext, up);
            }
            i = i + 1;
        }
        assert(cv.take(13) == cv);
        r
    }

    fn lookup(&self, key: &str) -> (r: Option<&str>)
        ensures
            r is Some <==> self.has(key@),
            r matches Some(v) ==> v@ == self.cached(key@),
    {
        proof {
            use_type_invariant(self);
        }
        match find_key(&self.extensions, key) {
            Some(i) => {
                proof {
                    lemma_value_at(self.extensions@, key@, i as int);
                }
                Some(self.extensions[i].1.as_str())
            },
            None => None,
        }
    }

    /// The number of cached extensions.
    pub fn len(&self) -> (r: usize)
        ensures
            r == self.entries().len(),
    {
        self.extensions.len()
    }

    /// Whether an extension is cached under exactly this key.
    pub fn is_cached(&self, key: &str) -> (r: bool)
        ensures
            r == self.has(key@),
    {
        self.lookup(key).is_some()
    }

    /// The upper-case display of a file extension, looked up by its lower-case
    /// form; an extension seen for the first time is cached.
    pub fn get_uppercase(&mut self, ext: &str) -> (r: &str)
        ensures
            old(self).has(lowercase(ext@)) ==> r@ == old(self).cached(lowercase(ext@))
                && final(self).entries() == old(self).entries(),
            !old(self).has(lowercase(ext@)) ==> r@ == uppercase(ext@),
            final(self).has(lowercase(ext@)),
            final(self).cached(lowercase(ext@)) == r@,
            forall|k: Seq<char>|
                k != lowercase(ext@) ==> (#[trigger] final(self).has(k) == old(self).has(k)
                    && (old(self).has(k) ==> final(self).cached(k) == old(self).cached(k))),
    {
        let key = to_lowercase(ext);
        if self.lookup(key.as_str()).is_none() {
            let up = to_uppercase(ext);
            self.add(key.as_str(), up);
        }
        self.lookup(key.as_str()).unwrap()
    }
}

impl Default for FileTypeCache {
    fn default() -> (r: Self) {
        Self::new()
    }
}

/// Short duration format: "M:SS".
pub open spec fn short_format(secs: nat) -> Seq<char> {
    decimal(secs / 60) + seq![':'] + two_digits(secs % 60)
}

/// Long duration format: "H:M:SS" when at least an hour, else "M:SS".
pub open spec fn long_format(secs: nat) -> Seq<char> {
    let h = secs / 3600;
    let m = (secs % 3600) / 60;
    let s = secs % 60;
    if h > 0 {
        decimal(h) + seq![':'] + decimal(m) + seq![':'] + two_digits(s)
    } else {
        decimal(m) + seq![':'] + two_digits(s)
    }
}

/// Short duration format with two leading spaces: "  M:SS".
pub open spec fn prefixed_format(secs: nat) -> Seq<char> {
    seq![' ', ' '] + short_format(secs)
}

pub(crate) fn make_short(secs: u64) -> (r: String)
    ensures
        r@ == short_format(secs as nat),
{
    let mut s = String::new();
    push_decimal(&mut s, secs / 60);
    push_char(&mut s, ':');
    push_two_digits(&mut s, secs % 60);
    s
}

fn make_long(secs: u64) -> (r: String)
    ensures
        r@ == long_format(secs as nat),
{
    let h = secs / 3600;
    let m = (secs % 3600) / 60;
    let sec = secs % 60;
    let mut s = String::new();
    if h > 0 {
        push_decimal(&mut s, h);
        push_char(&mut s, ':');
    }
    push_decimal(&mut s, m);
    push_char(&mut s, ':');
    push_two_digits(&mut s, sec);
    s
}

fn make_prefixed(secs: u64) -> (r: String)
    ensures
        r@ == prefixed_format(secs as nat),
{
    let mut s = String::new();
    push_char(&mut s, ' ');
    push_char(&mut s, ' ');
    let short = make_short(secs);
    push_str(&mut s, short.as_str());
    s
}

/// Every value of a map is the format of its key.
pub open spec fn formats_all(m: Map<u64, String>, f: spec_fn(nat) -> Seq<char>) -> bool {
    forall|k: u64| #[trigger] m.contains_key(k) ==> m[k]@ == f(k as nat)
}

/// Cache of formatted durations.
#[derive(Debug, Default)]
pub struct DurationCache {
    short: HashMap<u64, String>,
    long: HashMap<u64, String>,
    prefixed: HashMap<u64, String>,
}

impl DurationCache {
    #[verifier::type_invariant]
    spec fn inv(self) -> bool {
        &&& formats_all(self.short@, |n: nat| short_format(n))
        &&& formats_all(self.long@, |n: nat| long_format(n))
        &&& formats_all(self.prefixed@, |n: nat| prefixed_format(n))
    }

    /// Durations (in seconds) whose short format is cached.
    pub closed spec fn short_keys(&self) -> Set<u64> {
        self.short@.dom()
    }

    /// Durations whose long format is cached.
    pub closed spec fn long_keys(&self) -> Set<u64> {
        self.long@.dom()
    }

    /// Durations whose prefixed format is cached.
    pub closed spec fn prefixed_keys(&self) -> Set<u64> {
        self.prefixed@.dom()
    }

    /// Create an empty cache.
    pub fn new() -> (r: Self)
        ensures
            r.short_keys().is_empty(),
            r.long_keys().is_empty(),
            r.prefixed_keys().is_empty(),
    {
        let r = Self { short: HashMap::new(), long: HashMap::new(), prefixed: HashMap::new() };
        assert(r.short@.dom() =~= Set::empty());
        assert(r.long@.dom() =~= Set::empty());
        assert(r.prefixed@.dom() =~= Set::empty());
        r
    }

    /// Short format ("M:SS"), used for song durations.
    pub fn format_short(&mut self, secs: u64) -> (r: &str)
        ensures
            r@ == short_format(secs as nat),
            final(self).short_keys() == old(self).short_keys().insert(secs),
            final(self).long_keys() == old(self).long_keys(),
            final(self).prefixed_keys() == old(self).prefixed_keys(),
    {
        proof {
            use_type_invariant(&*self);
        }
        if !self.short.contains_key(&secs) {
            let s = make_short(secs);
            let mut m: HashMap<u64, String> = HashMap::new();
            std::mem::swap(&mut m, &mut self.short);
            m.insert(secs, s);
            std::mem::swap(&mut m, &mut self.short);
        }
        assert(self.short@.dom() =~= old(self).short@.dom().insert(secs));
        let v = self.short.get(&secs);
        v.unwrap().as_str()
    }

    /// Long format ("H:M:SS" or "M:SS"), used for album durations.
    pub fn format_long(&mut self, secs: u64) -> (r: &str)
        ensures
            r@ == long_format(secs as nat),
            final(self).long_keys() == old(self).long_keys().insert(secs),
            final(self).short_keys() == old(self).short_keys(),
            final(self).prefixed_keys() == old(self).prefixed_keys(),
    {
        proof {
            use_type_invariant(&*self);
        }
        if !self.long.contains_key(&secs) {
            let s = make_long(secs);
            let mut m: HashMap<u64, String> = HashMap::new();
            std::mem::swap(&mut m, &mut self.long);
            m.insert(secs, s);
            std::mem::swap(&mut m, &mut self.long);
        }
        assert(self.long@.dom() =~= old(self).long@.dom().insert(secs));
        let v = self.long.get(&secs);
        v.unwrap().as_str()
    }

    /// Short format with two leading spaces, used for aligned track durations.
    pub fn format_prefixed(&mut self, secs: u64) -> (r: &str)
        ensures
            r@ == prefixed_format(secs as nat),
            final(self).prefixed_keys() == old(self).prefixed_keys().insert(secs),
            final(self).short_keys() == old(self).short_keys(),
            final(self).long_keys() == old(self).long_keys(),
    {
        proof {
            use_type_invariant(&*self);
        }
        if !self.prefixed.contains_key(&secs) {
            let s = make_prefixed(secs);
            let mut m: HashMap<u64, String> = HashMap::new();
            std::mem::swap(&mut m, &mut self.prefixed);
            m.insert(secs, s);
            std::mem::swap(&mut m, &mut self.prefixed);
        }
        assert(self.prefixed@.dom() =~= old(self).prefixed@.dom().insert(secs));
        let v = self.prefixed.get(&secs);
        v.unwrap().as_str()
    }

    /// Number of cached short formats.
    pub fn short_len(&self) -> (r: usize)
        ensures
            r == self.short_keys().len(),
    {
        self.short.len()
    }

    /// Total number of cached entries.
    pub fn len(&self) -> (r: usize)
        requires
            self.short_keys().len() + self.long_keys().len() + self.prefixed_keys().len()
                <= usize::MAX,
        ensures
            r == self.short_keys().len() + self.long_keys().len() + self.prefixed_keys().len(),
    {
        self.short.len() + self.long.len() + self.prefixed.len()
    }

    /// Whether nothing is cached.
    pub fn is_empty(&self) -> (r: bool)
        ensures
            r == (self.short_keys().is_empty() && self.long_keys().is_empty()
                && self.prefixed_keys().is_empty()),
    {
        self.short.is_empty() && self.long.is_empty() && self.prefixed.is_empty()
    }
}

/// Filled part of a volume bar: one block per ten percent.
pub open spec fn volume_filled(volume: nat) -> Seq<char> {
    repeat(BLOCK, volume / 10)
}

/// Empty part of a volume bar: the blocks that complete ten.
pub open spec fn volume_empty(volume: nat) -> Seq<char> {
    repeat(BLOCK, if volume / 10 >= 10 { 0 } else { (10 - volume / 10) as nat })
}

/// Percentage text of a volume: " 80%".
pub open spec fn volume_percent(volume: nat) -> Seq<char> {
    seq![' '] + decimal(volume) + seq!['%']
}

/// Every value of a map is the format of its key.
pub open spec fn formats_all_u8(m: Map<u8, String>, f: spec_fn(nat) -> Seq<char>) -> bool {
    forall|k: u8| #[trigger] m.contains_key(k) ==> m[k]@ == f(k as nat)
}

/// Cache of volume bar strings.
#[derive(Debug, Default)]
pub struct VolumeBarCache {
    filled: HashMap<u8, String>,
    empty: HashMap<u8, String>,
    percent: HashMap<u8, String>,
}

impl VolumeBarCache {
    #[verifier::type_invariant]
    spec fn inv(self) -> bool {
        &&& formats_all_u8(self.filled@, |n: nat| volume_filled(n))
        &&& formats_all_u8(self.empty@, |n: nat| volume_empty(n))
        &&& formats_all_u8(self.percent@, |n: nat| volume_percent(n))
    }

    /// The volumes whose filled part, empty part and percentage are cached.
    pub closed spec fn cached_volumes(&self) -> (Set<u8>, Set<u8>, Set<u8>) {
        (self.filled@.dom(), self.empty@.dom(), self.percent@.dom())
    }

    /// Create an empty cache.
    pub fn new() -> (r: Self)
        ensures
            r.cached_volumes() == (Set::<u8>::empty(), Set::<u8>::empty(), Set::<u8>::empty()),
    {
        let r = Self { filled: HashMap::new(), empty: HashMap::new(), percent: HashMap::new() };
        assert(r.filled@.dom() =~= Set::empty());
        assert(r.empty@.dom() =~= Set::empty());
        assert(r.percent@.dom() =~= Set::empty());
        r
    }

    /// The filled part of the volume bar.
    pub fn filled(&mut self, volume: u8) -> (r: &str)
        ensures
            r@ == volume_filled(volume as nat),
    {
        proof {
            use_type_invariant(&*self);
        }
        if !self.filled.contains_key(&volume) {
            let s = repeat_char(BLOCK, (volume / 10) as usize);
            let mut m: HashMap<u8, String> = HashMap::new();
            std::mem::swap(&mut m, &mut self.filled);
            m.insert(volume, s);
            std::mem::swap(&mut m, &mut self.filled);
        }
        let v = self.filled.get(&volume);
        v.unwrap().as_str()
    }

    /// The empty part of the volume bar.
    pub fn empty(&mut self, volume: u8) -> (r: &str)
        ensures
            r@ == volume_empty(volume as nat),
    {
        proof {
            use_type_invariant(&*self);
        }
        if !self.empty.contains_key(&volume) {
            let bars = (volume / 10) as usize;
            let n: usize = if bars >= 10 {
                0
            } else {
                10 - bars
            };
            let s = repeat_char(BLOCK, n);
            let mut m: HashMap<u8, String> = HashMap::new();
            std::mem::swap(&mut m, &mut self.empty);
            m.insert(volume, s);
            std::mem::swap(&mut m, &mut self.empty);
        }
        let v = self.empty.get(&volume);
        v.unwrap().as_str()
    }

    /// The percentage text.
    pub fn percent(&mut self, volume: u8) -> (r: &str)
        ensures
            r@ == volume_percent(volume as nat),
    {
        proof {
            use_type_invariant(&*self);
        }
        if !self.percent.contains_key(&volume) {
            let mut s = String::new();
            push_char(&mut s, ' ');
            push_decimal(&mut s, volume as u64);
            push_char(&mut s, '%');
            assert(s@ == volume_percent(volume as nat));
            let mut m: HashMap<u8, String> = HashMap::new();
            std::mem::swap(&mut m, &mut self.percent);
            m.insert(volume, s);
            std::mem::swap(&mut m, &mut self.percent);
        }
        let v = self.percent.get(&volume);
        v.unwrap().as_str()
    }
}

/// All render caches together.
#[derive(Debug)]
pub struct RenderCache {
    pub fillers: FillerCache,
    pub durations: DurationCache,
    pub volume_bars: VolumeBarCache,
    pub queue_positions: QueuePositionCache,
    pub file_types: FileTypeCache,
}

/// The statistics line of the render caches.
pub open spec fn stats_line(durations: nat, file_types: nat) -> Seq<char> {
    "RenderCache stats: durations="@ + decimal(durations) + ", filler_widths="@ + decimal(
        MAX_FILLER_WIDTH as nat,
    ) + ", queue_positions="@ + decimal(MAX_QUEUE_POSITION as nat) + ", file_types="@ + decimal(
        file_types,
    )
}

impl RenderCache {
    /// Create all caches, with the fillers and positions generated and the
    /// common file types cached.
    pub fn new() -> (r: Self)
        ensures
            r.fillers.tables() == (
                repeats_upto(' ', MAX_FILLER_WIDTH as nat),
                repeats_upto(DASH, MAX_FILLER_WIDTH as nat),
                repeats_upto(PROGRESS_CHAR, MAX_PROGRESS_BAR_WIDTH as nat),
            ),
            r.queue_positions.prefixes() == Seq::new(
                MAX_QUEUE_POSITION as nat,
                |n: int| position_prefix(n as nat),
            ),
            r.volume_bars.cached_volumes() == (
                Set::<u8>::empty(),
                Set::<u8>::empty(),
                Set::<u8>::empty(),
            ),
            forall|k: Seq<char>| #[trigger] r.file_types.has(k) <==> common_formats().contains(k),
            forall|k: Seq<char>| #[trigger] r.file_types.has(k) ==> r.file_types.cached(k) == uppercase(k),
            r.durations.short_keys().is_empty(),
            r.durations.long_keys().is_empty(),
            r.durations.prefixed_keys().is_empty(),
    {
        Self {
            fillers: FillerCache::new(),
            durations: DurationCache::new(),
            volume_bars: VolumeBarCache::new(),
            queue_positions: QueuePositionCache::new(),
            file_types: FileTypeCache::new(),
        }
    }

    /// The line to log about the sizes of the caches.
    pub fn log_stats(&self) -> (r: String)
        requires
            self.durations.short_keys().len() + self.durations.long_keys().len()
                + self.durations.prefixed_keys().len() <= usize::MAX,
        ensures
            r@ == stats_line(
                (self.durations.short_keys().len() + self.durations.long_keys().len()
                    + self.durations.prefixed_keys().len()) as nat,
                self.file_types.entries().len(),
            ),
    {
        let mut r = String::new();
        push_str(&mut r, "RenderCache stats: durations=");
        push_decimal(&mut r, self.durations.len() as u64);
        push_str(&mut r, ", filler_widths=");
        push_decimal(&mut r, MAX_FILLER_WIDTH as u64);
        push_str(&mut r, ", queue_positions=");
        push_decimal(&mut r, MAX_QUEUE_POSITION as u64);
        push_str(&mut r, ", file_types=");
        push_decimal(&mut r, self.file_types.len() as u64);
        r
    }
}

impl Default for RenderCache {
    fn default() -> (r: Self) {
        Self::new()
    }
}

} // verus!
