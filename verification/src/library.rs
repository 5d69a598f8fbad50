//! The music library: albums and artists, loaded artist by artist.

use vstd::prelude::*;
use crate::casing::{lowercase, to_lowercase};
use crate::order::{chars_le, lex_le, lemma_lex_total, lemma_lex_transitive, str_le};
use crate::scan::{parse_u32, parse_u32_chars, split_by, split_chars, char_views};
use crate::song::{PlayState, SongInfo};
use crate::text::chars_of;
use vstd::multiset::Multiset;

verus! {

/// An album with its tracks.
#[derive(Debug, Clone)]
pub struct Album {
    pub name: String,
    pub tracks: Vec<SongInfo>,
}

/// An artist with its albums.
#[derive(Debug, Clone)]
pub struct Artist {
    pub name: String,
    pub albums: Vec<Album>,
}

/// Whether an artist's albums are loaded.
#[derive(Debug, Clone)]
pub enum ArtistData {
    NotLoaded,
    Loading,
    Loaded(Vec<Album>),
}

/// An artist whose albums are loaded on demand.
#[derive(Debug, Clone)]
pub struct LazyArtist {
    pub name: String,
    pub albums: ArtistData,
}

/// An album as plain values: its name and tracks.
pub type AlbumView = (Seq<char>, Seq<SongInfo>);

/// The plain view of an album.
pub open spec fn album_view(a: Album) -> AlbumView {
    (a.name@, a.tracks@)
}

/// The plain views of albums.
pub open spec fn albums_view(v: Seq<Album>) -> Seq<AlbumView> {
    v.map_values(|a: Album| album_view(a))
}

/// A copy of a song.
pub fn copy_song(s: &SongInfo) -> (r: SongInfo)
    ensures
        r == *s,
{
    SongInfo {
        title: s.title.clone(),
        artist: s.artist.clone(),
        album: s.album.clone(),
        file_path: s.file_path.clone(),
        format: match &s.format {
            Some(f) => Some(f.clone()),
            None => None,
        },
        play_state: s.play_state,
        elapsed_ms: s.elapsed_ms,
        duration_ms: s.duration_ms,
        disc_number: s.disc_number,
        track_number: s.track_number,
    }
}

/// A copy of a list of songs.
pub fn copy_songs(v: &Vec<SongInfo>) -> (r: Vec<SongInfo>)
    ensures
        r@ == v@,
{
    let mut r: Vec<SongInfo> = Vec::new();
    let mut i: usize = 0;
    while i < v.len()
        invariant
            i <= v@.len(),
            r@ == v@.take(i as int),
        decreases v@.len() - i,
    {
        r.push(copy_song(&v[i]));
        i = i + 1;
        assert(r@ == v@.take(i as int));
    }
    assert(v@.take(v@.len() as int) == v@);
    r
}

/// A copy of an album.
pub fn copy_album(a: &Album) -> (r: Album)
    ensures
        album_view(r) == album_view(*a),
{
    Album { name: a.name.clone(), tracks: copy_songs(&a.tracks) }
}

/// A copy of a list of albums.
pub fn copy_albums(v: &Vec<Album>) -> (r: Vec<Album>)
    ensures
        albums_view(r@) == albums_view(v@),
{
    let mut r: Vec<Album> = Vec::new();
    let mut i: usize = 0;
    while i < v.len()
        invariant
            i <= v@.len(),
            albums_view(r@) == albums_view(v@).take(i as int),
        decreases v@.len() - i,
    {
        let ghost before = albums_view(r@);
        let a = copy_album(&v[i]);
        r.push(a);
        assert(albums_view(r@) =~= before.push(album_view(a)));
        i = i + 1;
        assert(albums_view(r@) =~= albums_view(v@).take(i as int));
    }
    assert(albums_view(v@).take(v@.len() as int) == albums_view(v@));
    r
}

/// The sample rate at the start of an MPD format string such as
/// `44100:16:2`, as `str::parse::<u32>` reads the text before the first `:`.
pub open spec fn format_sample_rate(format: Option<String>) -> Option<u32> {
    match format {
        Some(f) => parse_u32(split_by(f@, seq![':'])[0]),
        None => None,
    }
}

impl SongInfo {
    /// The sample rate of the song's format (`samplerate:bits:channels`),
    /// when it is known and reads as a number.
    pub fn sample_rate(&self) -> (r: Option<u32>)
        ensures
            r == format_sample_rate(self.format),
    {
        match &self.format {
            Some(f) => {
                let cs = chars_of(f.as_str());
                let mut seps: Vec<char> = Vec::new();
                seps.push(':');
                assert(seps@ == seq![':']);
                let parts = split_chars(&cs, &seps);
                let ghost pv = char_views(parts@);
                assert(parts@[0]@ == pv[0]);
                parse_u32_chars(&parts[0])
            },
            None => None,
        }
    }

    /// Records the play state.
    pub fn update_playback_info(&mut self, play_state: Option<PlayState>)
        ensures
            *final(self) == (SongInfo { play_state, ..*old(self) }),
    {
        self.play_state = play_state;
    }

    /// Records the elapsed time and duration, in milliseconds.
    pub fn update_time_info(&mut self, elapsed_ms: Option<u64>, duration_ms: Option<u64>)
        ensures
            *final(self) == (SongInfo { elapsed_ms, duration_ms, ..*old(self) }),
    {
        self.elapsed_ms = elapsed_ms;
        self.duration_ms = duration_ms;
    }
}

/// The whole seconds of the tracks' durations added up, when any track has one.
pub open spec fn total_seconds(tracks: Seq<SongInfo>) -> Option<nat>
    decreases tracks.len(),
{
    if tracks.len() == 0 {
        None
    } else {
        let rest = total_seconds(tracks.drop_last());
        match tracks.last().duration_ms {
            Some(ms) => Some(
                (match rest {
                    Some(t) => t,
                    None => 0nat,
                } + ms / 1000) as nat,
            ),
            None => rest,
        }
    }
}

impl Album {
    /// The total duration of the tracks in whole seconds (each track's
    /// duration counted in whole seconds), when any track has a duration.
    pub fn total_duration(&self) -> (r: Option<u64>)
        requires
            total_seconds(self.tracks@) matches Some(t) ==> t <= u64::MAX,
        ensures
            r == match total_seconds(self.tracks@) {
                Some(t) => Some(t as u64),
                None => None::<u64>,
            },
    {
        let mut total_secs: u64 = 0;
        let mut has_duration = false;
        let mut i: usize = 0;
        while i < self.tracks.len()
            invariant
                i <= self.tracks@.len(),
                total_seconds(self.tracks@) matches Some(t) ==> t <= u64::MAX,
                has_duration == (total_seconds(self.tracks@.take(i as int)) is Some),
                total_secs == match total_seconds(self.tracks@.take(i as int)) {
                    Some(t) => t,
                    None => 0nat,
                },
            decreases self.tracks@.len() - i,
        {
            let ghost prefix = self.tracks@.take(i + 1);
            assert(prefix.drop_last() == self.tracks@.take(i as int));
            assert(prefix.last() == self.tracks@[i as int]);
            proof {
                lemma_total_seconds_prefix(self.tracks@, i + 1);
            }
            match self.tracks[i].duration_ms {
                Some(ms) => {
                    total_secs = total_secs + ms / 1000;
                    has_duration = true;
                },
                None => {},
            }
            i = i + 1;
        }
        assert(self.tracks@.take(self.tracks@.len() as int) == self.tracks@);
        if has_duration {
            Some(total_secs)
        } else {
            None
        }
    }
}

proof fn lemma_total_seconds_prefix(tracks: Seq<SongInfo>, k: int)
    requires
        0 <= k <= tracks.len(),
    ensures
        total_seconds(tracks.take(k)) matches Some(a) ==> (total_seconds(tracks) matches Some(b)
            && a <= b),
    decreases tracks.len() - k,
{
    if k < tracks.len() {
        lemma_total_seconds_prefix(tracks.drop_last(), k);
        assert(tracks.drop_last().take(k) == tracks.take(k));
    } else {
        assert(tracks.take(k) == tracks);
    }
}

impl LazyArtist {
    /// An artist with no albums loaded yet.
    pub fn new(name: String) -> (r: Self)
        ensures
            r.name == name,
            r.albums is NotLoaded,
    {
        LazyArtist { name, albums: ArtistData::NotLoaded }
    }

    /// Whether the artist's albums are loaded.
    pub fn is_loaded(&self) -> (r: bool)
        ensures
            r == (self.albums is Loaded),
    {
        match self.albums {
            ArtistData::Loaded(_) => true,
            _ => false,
        }
    }

    /// Whether the artist's albums are being loaded.
    pub fn is_loading(&self) -> (r: bool)
        ensures
            r == (self.albums is Loading),
    {
        match self.albums {
            ArtistData::Loading => true,
            _ => false,
        }
    }

    /// The artist with its albums, or with none when they are not loaded.
    pub fn to_artist(&self) -> (r: Artist)
        ensures
            r.name@ == self.name@,
            albums_view(r.albums@) == match self.albums {
                ArtistData::Loaded(v) => albums_view(v@),
                _ => Seq::empty(),
            },
    {
        let albums = match &self.albums {
            ArtistData::Loaded(v) => copy_albums(v),
            _ => {
                let v: Vec<Album> = Vec::new();
                assert(albums_view(v@) =~= Seq::empty());
                v
            },
        };
        Artist { name: self.name.clone(), albums }
    }
}

// ---------------------------------------------------------------------------
// Stable sorting by an order.

/// Inserts `x` before the first element that `x` comes strictly before
/// (after all elements it ties with).
pub open spec fn insert_by<T>(s: Seq<T>, x: T, le: spec_fn(T, T) -> bool) -> Seq<T>
    decreases s.len(),
{
    if s.len() == 0 {
        seq![x]
    } else if !le(s[0], x) {
        seq![x] + s
    } else {
        seq![s[0]] + insert_by(s.drop_first(), x, le)
    }
}

/// The elements in the order `le`, ties in their original order: a stable
/// insertion sort, as `slice::sort_by` orders them.
pub open spec fn sort_by<T>(s: Seq<T>, le: spec_fn(T, T) -> bool) -> Seq<T>
    decreases s.len(),
{
    if s.len() == 0 {
        s
    } else {
        insert_by(sort_by(s.drop_last(), le), s.last(), le)
    }
}

/// `le` is a total preorder.
pub open spec fn total_preorder<T>(le: spec_fn(T, T) -> bool) -> bool {
    &&& forall|a: T, b: T| #[trigger] le(a, b) || le(b, a)
    &&& forall|a: T, b: T, c: T| #[trigger] le(a, b) && #[trigger] le(b, c) ==> le(a, c)
}

/// The elements are in the order `le`.
pub open spec fn sorted_by<T>(s: Seq<T>, le: spec_fn(T, T) -> bool) -> bool {
    forall|i: int, j: int| 0 <= i < j < s.len() ==> le(#[trigger] s[i], #[trigger] s[j])
}

proof fn lemma_insert_by_index<T>(s: Seq<T>, x: T, le: spec_fn(T, T) -> bool, p: int)
    requires
        0 <= p <= s.len(),
        forall|j: int| 0 <= j < p ==> le(#[trigger] s[j], x),
        p == s.len() || !le(s[p], x),
    ensures
        insert_by(s, x, le) == s.insert(p, x),
    decreases s.len(),
{
    if s.len() == 0 {
        assert(s.insert(p, x) =~= seq![x]);
    } else if p == 0 {
        assert(s.insert(0, x) =~= seq![x] + s);
    } else {
        lemma_insert_by_index(s.drop_first(), x, le, p - 1);
        assert(s.insert(p, x) =~= seq![s[0]] + s.drop_first().insert(p - 1, x));
    }
}

proof fn lemma_insert_by_sorted<T>(s: Seq<T>, x: T, le: spec_fn(T, T) -> bool)
    requires
        total_preorder(le),
        sorted_by(s, le),
    ensures
        sorted_by(insert_by(s, x, le), le),
        insert_by(s, x, le).to_multiset() == s.to_multiset().insert(x),
    decreases s.len(),
{
    broadcast use vstd::seq_lib::group_seq_properties;
    if s.len() == 0 {
        assert(seq![x].to_multiset() =~= Multiset::<T>::empty().insert(x));
    } else if !le(s[0], x) {
        let r = seq![x] + s;
        assert(le(x, s[0]));
        assert forall|i: int, j: int| 0 <= i < j < r.len() implies le(#[trigger] r[i], #[trigger] r[j]) by {
            if i == 0 {
                if j > 1 {
                    assert(le(s[0], s[j - 1]));
                }
            } else {
                assert(r[i] == s[i - 1] && r[j] == s[j - 1]);
            }
        }
        assert(r =~= s.insert(0, x));
    } else {
        let t = s.drop_first();
        assert forall|i: int, j: int| 0 <= i < j < t.len() implies le(#[trigger] t[i], #[trigger] t[j]) by {
            assert(t[i] == s[i + 1] && t[j] == s[j + 1]);
        }
        lemma_insert_by_sorted(t, x, le);
        let u = insert_by(t, x, le);
        let r = seq![s[0]] + u;
        assert forall|i: int, j: int| 0 <= i < j < r.len() implies le(#[trigger] r[i], #[trigger] r[j]) by {
            if i == 0 {
                let y = r[j];
                assert(u.to_multiset().contains(y)) by {
                    assert(u.contains(y));
                }
                assert(t.to_multiset().insert(x).contains(y));
                if y != x {
                    assert(t.to_multiset().contains(y));
                    assert(t.contains(y));
                    let k = choose|k: int| 0 <= k < t.len() && t[k] == y;
                    assert(s[k + 1] == y);
                }
            } else {
                assert(r[i] == u[i - 1] && r[j] == u[j - 1]);
            }
        }
        assert(s =~= seq![s[0]] + t);
        assert(r.to_multiset() =~= s.to_multiset().insert(x)) by {
            vstd::seq_lib::lemma_multiset_commutative(seq![s[0]], u);
            vstd::seq_lib::lemma_multiset_commutative(seq![s[0]], t);
            broadcast use vstd::multiset::group_multiset_axioms;
        }
    }
}

/// Sorting puts the elements in the order and keeps each element as often
/// as it occurs.
pub proof fn lemma_sort_by_sorted<T>(s: Seq<T>, le: spec_fn(T, T) -> bool)
    requires
        total_preorder(le),
    ensures
        sorted_by(sort_by(s, le), le),
        sort_by(s, le).to_multiset() == s.to_multiset(),
    decreases s.len(),
{
    broadcast use vstd::seq_lib::group_seq_properties;
    if s.len() > 0 {
        lemma_sort_by_sorted(s.drop_last(), le);
        lemma_insert_by_sorted(sort_by(s.drop_last(), le), s.last(), le);
        assert(s =~= s.drop_last().push(s.last()));
    }
}

/// The order of tracks: by disc, then track number, then title.
pub open spec fn track_le(a: SongInfo, b: SongInfo) -> bool {
    a.disc_number < b.disc_number || (a.disc_number == b.disc_number && (a.track_number
        < b.track_number || (a.track_number == b.track_number && lex_le(a.title@, b.title@))))
}

/// The order of tracks as a function.
pub open spec fn track_order() -> spec_fn(SongInfo, SongInfo) -> bool {
    |a: SongInfo, b: SongInfo| track_le(a, b)
}

/// The order of albums: by name, without regard to case.
pub open spec fn album_order() -> spec_fn(AlbumView, AlbumView) -> bool {
    |a: AlbumView, b: AlbumView| lex_le(lowercase(a.0), lowercase(b.0))
}

/// The order of the albums view: by album name, then artist name, without
/// regard to case.
pub open spec fn entry_order() -> spec_fn((Seq<char>, AlbumView), (Seq<char>, AlbumView)) -> bool {
    |a: (Seq<char>, AlbumView), b: (Seq<char>, AlbumView)|
        {
            let x = lowercase(a.1.0);
            let y = lowercase(b.1.0);
            (lex_le(x, y) && x != y) || (x == y && lex_le(lowercase(a.0), lowercase(b.0)))
        }
}

/// The three orders are total preorders.
pub proof fn lemma_orders_total()
    ensures
        total_preorder(track_order()),
        total_preorder(album_order()),
        total_preorder(entry_order()),
{
    assert forall|a: SongInfo, b: SongInfo| #[trigger] track_order()(a, b) || track_order()(b, a) by {
        lemma_lex_total(a.title@, b.title@);
    }
    assert forall|a: SongInfo, b: SongInfo, c: SongInfo|
        #[trigger] track_order()(a, b) && #[trigger] track_order()(b, c) implies track_order()(
        a,
        c,
    ) by {
        if a.disc_number == b.disc_number && b.disc_number == c.disc_number && a.track_number
            == b.track_number && b.track_number == c.track_number {
            lemma_lex_transitive(a.title@, b.title@, c.title@);
        }
    }
    assert forall|a: AlbumView, b: AlbumView| #[trigger] album_order()(a, b) || album_order()(
        b,
        a,
    ) by {
        lemma_lex_total(lowercase(a.0), lowercase(b.0));
    }
    assert forall|a: AlbumView, b: AlbumView, c: AlbumView|
        #[trigger] album_order()(a, b) && #[trigger] album_order()(b, c) implies album_order()(
        a,
        c,
    ) by {
        lemma_lex_transitive(lowercase(a.0), lowercase(b.0), lowercase(c.0));
    }
    assert forall|a: (Seq<char>, AlbumView), b: (Seq<char>, AlbumView)|
        #[trigger] entry_order()(a, b) || entry_order()(b, a) by {
        lemma_lex_total(lowercase(a.1.0), lowercase(b.1.0));
        lemma_lex_total(lowercase(a.0), lowercase(b.0));
    }
    assert forall|a: (Seq<char>, AlbumView), b: (Seq<char>, AlbumView), c: (
        Seq<char>,
        AlbumView,
    )| #[trigger] entry_order()(a, b) && #[trigger] entry_order()(b, c) implies entry_order()(
        a,
        c,
    ) by {
        let x = lowercase(a.1.0);
        let y = lowercase(b.1.0);
        let z = lowercase(c.1.0);
        if lex_le(x, y) && lex_le(y, z) {
            lemma_lex_transitive(x, y, z);
            if x == z {
                crate::order::lemma_lex_antisymmetric(x, y);
            }
        }
        if lex_le(lowercase(a.0), lowercase(b.0)) && lex_le(lowercase(b.0), lowercase(c.0)) {
            lemma_lex_transitive(lowercase(a.0), lowercase(b.0), lowercase(c.0));
        }
    }
}

fn track_le_exec(a: &SongInfo, b: &SongInfo) -> (r: bool)
    ensures
        r == track_le(*a, *b),
{
    if a.disc_number != b.disc_number {
        return a.disc_number < b.disc_number;
    }
    if a.track_number != b.track_number {
        return a.track_number < b.track_number;
    }
    str_le(a.title.as_str(), b.title.as_str())
}

/// Sorts tracks by disc, track number and title, keeping ties in order.
pub fn sort_tracks(v: Vec<SongInfo>) -> (r: Vec<SongInfo>)
    ensures
        r@ == sort_by(v@, track_order()),
{
    let mut r: Vec<SongInfo> = Vec::new();
    let mut i: usize = 0;
    while i < v.len()
        invariant
            i <= v@.len(),
            r@ == sort_by(v@.take(i as int), track_order()),
        decreases v@.len() - i,
    {
        let x = copy_song(&v[i]);
        let mut p: usize = 0;
        while p < r.len() && track_le_exec(&r[p], &x)
            invariant
                p <= r@.len(),
                forall|j: int| 0 <= j < p ==> track_order()(#[trigger] r@[j], x),
            decreases r@.len() - p,
        {
            p = p + 1;
        }
        proof {
            lemma_insert_by_index(r@, x, track_order(), p as int);
        }
        let ghost prefix = v@.take(i + 1);
        assert(prefix.drop_last() == v@.take(i as int));
        assert(prefix.last() == x);
        r.insert(p, x);
        i = i + 1;
    }
    assert(v@.take(v@.len() as int) == v@);
    r
}

fn album_le_exec(a: &Album, b: &Album) -> (r: bool)
    ensures
        r == album_order()(album_view(*a), album_view(*b)),
{
    let x = to_lowercase(a.name.as_str());
    let y = to_lowercase(b.name.as_str());
    str_le(x.as_str(), y.as_str())
}

/// Sorts albums by name without regard to case, keeping ties in order.
pub fn sort_albums(v: Vec<Album>) -> (r: Vec<Album>)
    ensures
        albums_view(r@) == sort_by(albums_view(v@), album_order()),
{
    let mut v = v;
    let ghost original = albums_view(v@);
    assert(original.len() == v.len());
    let mut r: Vec<Album> = Vec::new();
    let mut consumed: usize = 0;
    assert(albums_view(r@) =~= sort_by(original.take(0), album_order()));
    while v.len() > 0
        invariant
            consumed + v@.len() == original.len(),
            original.len() <= usize::MAX,
            albums_view(v@) == original.skip(consumed as int),
            albums_view(r@) == sort_by(original.take(consumed as int), album_order()),
        decreases v@.len(),
    {
        let ghost before_v = albums_view(v@);
        assert(before_v[0] == original[consumed as int]);
        let x = v.remove(0);
        assert(before_v[0] == album_view(x));
        assert(albums_view(v@) =~= before_v.drop_first());
        let mut p: usize = 0;
        while p < r.len() && album_le_exec(&r[p], &x)
            invariant
                p <= r@.len(),
                forall|j: int| 0 <= j < p ==> album_order()(#[trigger] albums_view(r@)[j], album_view(x)),
            decreases r@.len() - p,
        {
            p = p + 1;
        }
        proof {
            lemma_insert_by_index(albums_view(r@), album_view(x), album_order(), p as int);
        }
        let ghost prefix = original.take(consumed + 1);
        assert(prefix.drop_last() == original.take(consumed as int));
        assert(prefix.last() == album_view(x));
        let ghost before_r = albums_view(r@);
        r.insert(p, x);
        assert(albums_view(r@) =~= before_r.insert(p as int, album_view(x)));
        consumed = consumed + 1;
        assert(original.skip(consumed as int) =~= original.skip(consumed - 1).drop_first());
    }
    assert(original.take(original.len() as int) == original);
    r
}

// ---------------------------------------------------------------------------
// Grouping songs into albums.

/// Songs gathered under a name.
pub type Group = (Seq<char>, Seq<SongInfo>);

/// The index of the first group with the name, or -1.
pub open spec fn group_index(gs: Seq<Group>, name: Seq<char>) -> int
    decreases gs.len(),
{
    if gs.len() == 0 {
        -1
    } else if gs[0].0 == name {
        0
    } else {
        let r = group_index(gs.drop_first(), name);
        if r < 0 {
            -1
        } else {
            r + 1
        }
    }
}

proof fn lemma_group_index(gs: Seq<Group>, name: Seq<char>)
    ensures
        -1 <= group_index(gs, name) < gs.len(),
        group_index(gs, name) >= 0 ==> gs[group_index(gs, name)].0 == name,
        group_index(gs, name) == -1 ==> forall|j: int| 0 <= j < gs.len() ==> (#[trigger] gs[j]).0 != name,
        forall|j: int| 0 <= j < group_index(gs, name) ==> (#[trigger] gs[j]).0 != name,
    decreases gs.len(),
{
    if gs.len() > 0 && gs[0].0 != name {
        lemma_group_index(gs.drop_first(), name);
        assert forall|j: int| 1 <= j < gs.len() implies gs[j] == gs.drop_first()[j - 1] by {}
    }
}

/// Adds a song to the group of its key, or to a new group at the end.
pub open spec fn add_to_group(gs: Seq<Group>, key: Seq<char>, x: SongInfo) -> Seq<Group> {
    let i = group_index(gs, key);
    if i >= 0 {
        gs.update(i, (gs[i].0, gs[i].1.push(x)))
    } else {
        gs.push((key, seq![x]))
    }
}

/// The songs grouped by album name, groups in the order their first song
/// comes, songs in their order.
pub open spec fn group_songs(s: Seq<SongInfo>) -> Seq<Group>
    decreases s.len(),
{
    if s.len() == 0 {
        Seq::empty()
    } else {
        add_to_group(group_songs(s.drop_last()), s.last().album@, s.last())
    }
}

/// The albums of a list of songs: one per album name, tracks sorted by disc,
/// track number and title, albums sorted by name without regard to case.
pub open spec fn albums_of(s: Seq<SongInfo>) -> Seq<AlbumView> {
    sort_by(
        group_songs(s).map_values(|g: Group| (g.0, sort_by(g.1, track_order()))),
        album_order(),
    )
}

/// The plain view of groups.
pub open spec fn groups_view(v: Seq<(String, Vec<SongInfo>)>) -> Seq<Group> {
    v.map_values(|g: (String, Vec<SongInfo>)| (g.0@, g.1@))
}

fn find_group_exec(groups: &Vec<(String, Vec<SongInfo>)>, key: &String) -> (r: Option<usize>)
    ensures
        match r {
            Some(i) => group_index(groups_view(groups@), key@) == i,
            None => group_index(groups_view(groups@), key@) == -1,
        },
{
    let ghost gv = groups_view(groups@);
    proof {
        lemma_group_index(gv, key@);
    }
    let mut i: usize = 0;
    while i < groups.len()
        invariant
            i <= groups@.len(),
            gv == groups_view(groups@),
            -1 <= group_index(gv, key@) < gv.len(),
            group_index(gv, key@) >= 0 ==> gv[group_index(gv, key@)].0 == key@,
            group_index(gv, key@) == -1 ==> forall|j: int|
                0 <= j < gv.len() ==> (#[trigger] gv[j]).0 != key@,
            forall|j: int| 0 <= j < group_index(gv, key@) ==> (#[trigger] gv[j]).0 != key@,
            forall|j: int| 0 <= j < i ==> (#[trigger] gv[j]).0 != key@,
        decreases groups@.len() - i,
    {
        assert(gv[i as int].0 == groups@[i as int].0@);
        if groups[i].0 == *key {
            return Some(i);
        }
        i = i + 1;
    }
    None
}

/// Gathers songs under their keys, in the order each key first comes.
fn group_by_key(items: Vec<(String, SongInfo)>) -> (r: Vec<(String, Vec<SongInfo>)>)
    ensures
        groups_view(r@) == group_keyed(items@),
{
    let mut items = items;
    let ghost original = items@;
    assert(original.len() == items.len());
    let mut groups: Vec<(String, Vec<SongInfo>)> = Vec::new();
    let mut done: usize = 0;
    assert(groups_view(groups@) =~= group_keyed(original.take(0)));
    while items.len() > 0
        invariant
            done + items@.len() == original.len(),
            original.len() <= usize::MAX,
            items@ == original.skip(done as int),
            groups_view(groups@) == group_keyed(original.take(done as int)),
        decreases items@.len(),
    {
        let ghost before_items = items@;
        assert(before_items[0] == original[done as int]);
        let (key, song) = items.remove(0);
        assert(items@ =~= original.skip(done + 1));
        let ghost prefix = original.take(done + 1);
        assert(prefix.drop_last() == original.take(done as int));
        assert(prefix.last() == (key, song));
        let ghost gv = groups_view(groups@);
        proof {
            lemma_group_index(gv, key@);
        }
        match find_group_exec(&groups, &key) {
            Some(i) => {
                let ghost before_groups = groups@;
                let mut g = groups.remove(i);
                g.1.push(song);
                groups.insert(i, g);
                assert(groups@ =~= before_groups.update(i as int, g));
                assert(groups_view(groups@) =~= gv.update(i as int, (gv[i as int].0, gv[i as int].1.push(song))));
            },
            None => {
                let mut v: Vec<SongInfo> = Vec::new();
                v.push(song);
                groups.push((key, v));
                assert(groups_view(groups@) =~= gv.push((key@, seq![song])));
            },
        }
        done = done + 1;
    }
    assert(original.take(original.len() as int) == original);
    groups
}

/// The songs grouped by key, groups in the order their first song comes.
pub open spec fn group_keyed(s: Seq<(String, SongInfo)>) -> Seq<Group>
    decreases s.len(),
{
    if s.len() == 0 {
        Seq::empty()
    } else {
        add_to_group(group_keyed(s.drop_last()), s.last().0@, s.last().1)
    }
}

proof fn lemma_keyed_by_album(s: Seq<SongInfo>, k: Seq<(String, SongInfo)>)
    requires
        k.len() == s.len(),
        forall|i: int| 0 <= i < s.len() ==> (#[trigger] k[i]).0@ == s[i].album@ && k[i].1 == s[i],
    ensures
        group_keyed(k) == group_songs(s),
    decreases s.len(),
{
    if s.len() > 0 {
        lemma_keyed_by_album(s.drop_last(), k.drop_last());
        assert(k.last() == k[k.len() - 1]);
    }
}

/// The albums of a list of songs, as `albums_of` says.
pub fn albums_from_songs(songs: Vec<SongInfo>) -> (r: Vec<Album>)
    ensures
        albums_view(r@) == albums_of(songs@),
{
    let mut keyed: Vec<(String, SongInfo)> = Vec::new();
    let mut i: usize = 0;
    while i < songs.len()
        invariant
            i <= songs@.len(),
            keyed@.len() == i,
            forall|j: int|
                0 <= j < i ==> (#[trigger] keyed@[j]).0@ == songs@[j].album@ && keyed@[j].1
                    == songs@[j],
        decreases songs@.len() - i,
    {
        let s = copy_song(&songs[i]);
        keyed.push((s.album.clone(), s));
        i = i + 1;
    }
    proof {
        lemma_keyed_by_album(songs@, keyed@);
    }
    let groups = group_by_key(keyed);
    let ghost gv = groups_view(groups@);
    let mut albums: Vec<Album> = Vec::new();
    let mut groups = groups;
    let mut done: usize = 0;
    let ghost target = gv.map_values(|g: Group| (g.0, sort_by(g.1, track_order())));
    assert(gv.len() == groups.len());
    assert(albums_view(albums@) =~= target.take(0));
    while groups.len() > 0
        invariant
            done + groups@.len() == gv.len(),
            gv.len() <= usize::MAX,
            groups_view(groups@) == gv.skip(done as int),
            target == gv.map_values(|g: Group| (g.0, sort_by(g.1, track_order()))),
            albums_view(albums@) == target.take(done as int),
        decreases groups@.len(),
    {
        let ghost before = groups_view(groups@);
        assert(before[0] == gv[done as int]);
        let (name, tracks) = groups.remove(0);
        assert(groups_view(groups@) =~= before.drop_first());
        assert(gv.skip(done as int).drop_first() =~= gv.skip(done + 1));
        let sorted = sort_tracks(tracks);
        let ghost prev = albums_view(albums@);
        let album = Album { name, tracks: sorted };
        albums.push(album);
        assert(albums_view(albums@) =~= prev.push(album_view(album)));
        done = done + 1;
        assert(albums_view(albums@) =~= target.take(done as int));
    }
    assert(target.take(gv.len() as int) == target);
    sort_albums(albums)
}

/// An artist's loading state as plain values.
pub enum ArtistStatus {
    NotLoaded,
    Loading,
    Loaded(Seq<AlbumView>),
}

/// The plain view of an artist's loading state.
pub open spec fn status_of(d: ArtistData) -> ArtistStatus {
    match d {
        ArtistData::NotLoaded => ArtistStatus::NotLoaded,
        ArtistData::Loading => ArtistStatus::Loading,
        ArtistData::Loaded(v) => ArtistStatus::Loaded(albums_view(v@)),
    }
}

/// An artist as plain values.
pub type ArtistView = (Seq<char>, ArtistStatus);

/// The plain view of artists.
pub open spec fn artists_view(v: Seq<LazyArtist>) -> Seq<ArtistView> {
    v.map_values(|a: LazyArtist| (a.name@, status_of(a.albums)))
}

/// An album of the albums view with its artist's name, as plain values.
pub type EntryView = (Seq<char>, AlbumView);

/// The plain view of the albums view.
pub open spec fn entries_view(v: Seq<(String, Album)>) -> Seq<EntryView> {
    v.map_values(|e: (String, Album)| (e.0@, album_view(e.1)))
}

/// The library: artist names first, each artist's albums when loaded, and
/// the albums of all loaded artists for the albums view.
#[derive(Debug, Clone)]
pub struct LazyLibrary {
    pub artists: Vec<LazyArtist>,
    /// Every loaded album with its artist's name.
    pub all_albums: Vec<(String, Album)>,
    /// Every artist is loaded.
    pub all_albums_complete: bool,
    /// `all_albums` is in album order.
    pub all_albums_sorted: bool,
}

/// What to do about a request to load an artist.
#[derive(Debug, Clone, PartialEq, Eq)]
pub enum LoadStart {
    /// No artist has that index.
    OutOfBounds,
    /// The artist is loaded or being loaded already.
    Skip,
    /// Fetch the songs of the artist with this name, then call
    /// `finish_load_artist` (or `cancel_load_artist` on failure).
    Load(String),
}

/// The artist names that are not empty, in order.
pub open spec fn nonempty_names(s: Seq<Seq<char>>) -> Seq<Seq<char>>
    decreases s.len(),
{
    if s.len() == 0 {
        Seq::empty()
    } else if s.last().len() > 0 {
        nonempty_names(s.drop_last()).push(s.last())
    } else {
        nonempty_names(s.drop_last())
    }
}

/// The order of artist names: without regard to case.
pub open spec fn name_order() -> spec_fn(Seq<char>, Seq<char>) -> bool {
    |a: Seq<char>, b: Seq<char>| lex_le(lowercase(a), lowercase(b))
}

fn name_le_exec(a: &String, b: &String) -> (r: bool)
    ensures
        r == name_order()(a@, b@),
{
    let x = to_lowercase(a.as_str());
    let y = to_lowercase(b.as_str());
    str_le(x.as_str(), y.as_str())
}

/// The albums of the albums view after adding an artist's albums: each
/// album is added unless the same artist and album name are there already.
pub open spec fn merge_entries(e: Seq<EntryView>, artist: Seq<char>, albums: Seq<AlbumView>) -> Seq<
    EntryView,
>
    decreases albums.len(),
{
    if albums.len() == 0 {
        e
    } else {
        let m = merge_entries(e, artist, albums.drop_last());
        let a = albums.last();
        if exists|j: int| 0 <= j < m.len() && (#[trigger] m[j]).0 == artist && m[j].1.0 == a.0 {
            m
        } else {
            m.push((artist, a))
        }
    }
}

/// Every artist is loaded.
pub open spec fn all_loaded(v: Seq<ArtistView>) -> bool {
    forall|j: int| 0 <= j < v.len() ==> (#[trigger] v[j]).1 is Loaded
}

impl LazyLibrary {
    /// A library of the given artist names: empty names left out, the rest
    /// sorted without regard to case (ties in their order), none loaded.
    pub fn from_artist_names(artist_names: Vec<String>) -> (r: Self)
        ensures
            artists_view(r.artists@) == sort_by(
                nonempty_names(crate::text::names(artist_names@)),
                name_order(),
            ).map_values(|n: Seq<char>| (n, ArtistStatus::NotLoaded)),
            r.all_albums@.len() == 0,
            !r.all_albums_complete,
            !r.all_albums_sorted,
    {
        let ghost all = crate::text::names(artist_names@);
        let mut sorted: Vec<String> = Vec::new();
        let mut i: usize = 0;
        while i < artist_names.len()
            invariant
                i <= artist_names@.len(),
                all == crate::text::names(artist_names@),
                crate::text::names(sorted@) == sort_by(
                    nonempty_names(all.take(i as int)),
                    name_order(),
                ),
            decreases artist_names@.len() - i,
        {
            let ghost prefix = all.take(i + 1);
            assert(prefix.drop_last() == all.take(i as int));
            assert(prefix.last() == artist_names@[i as int]@);
            let name_chars = chars_of(artist_names[i].as_str());
            assert(name_chars@ == all[i as int]);
            if name_chars.len() > 0 {
                let x = artist_names[i].clone();
                assert(x@ == all[i as int]);
                assert(nonempty_names(prefix) == nonempty_names(all.take(i as int)).push(x@));
                assert(nonempty_names(prefix).drop_last() == nonempty_names(all.take(i as int)));
                let mut p: usize = 0;
                while p < sorted.len() && name_le_exec(&sorted[p], &x)
                    invariant
                        p <= sorted@.len(),
                        forall|j: int|
                            0 <= j < p ==> name_order()(#[trigger] crate::text::names(sorted@)[j], x@),
                    decreases sorted@.len() - p,
                {
                    p = p + 1;
                }
                proof {
                    lemma_insert_by_index(crate::text::names(sorted@), x@, name_order(), p as int);
                }
                let ghost before = crate::text::names(sorted@);
                sorted.insert(p, x);
                assert(crate::text::names(sorted@) =~= before.insert(p as int, x@));
            } else {
                assert(nonempty_names(prefix) == nonempty_names(all.take(i as int)));
            }
            i = i + 1;
        }
        assert(all.take(all.len() as int) == all);
        let mut artists: Vec<LazyArtist> = Vec::new();
        let ghost sv = crate::text::names(sorted@);
        let mut k: usize = 0;
        while k < sorted.len()
            invariant
                k <= sorted@.len(),
                sv == crate::text::names(sorted@),
                artists_view(artists@) == sv.take(k as int).map_values(
                    |n: Seq<char>| (n, ArtistStatus::NotLoaded),
                ),
            decreases sorted@.len() - k,
        {
            let ghost before = artists_view(artists@);
            let a = LazyArtist::new(sorted[k].clone());
            artists.push(a);
            assert(artists_view(artists@) =~= before.push((sv[k as int], ArtistStatus::NotLoaded)));
            k = k + 1;
            assert(artists_view(artists@) =~= sv.take(k as int).map_values(
                |n: Seq<char>| (n, ArtistStatus::NotLoaded),
            ));
        }
        assert(sv.take(sv.len() as int) == sv);
        LazyLibrary {
            artists,
            all_albums: Vec::new(),
            all_albums_complete: false,
            all_albums_sorted: false,
        }
    }
}

fn entry_le_exec(a: &(String, Album), b: &(String, Album)) -> (r: bool)
    ensures
        r == entry_order()((a.0@, album_view(a.1)), (b.0@, album_view(b.1))),
{
    let x = to_lowercase(a.1.name.as_str());
    let y = to_lowercase(b.1.name.as_str());
    let xc = chars_of(x.as_str());
    let yc = chars_of(y.as_str());
    if crate::text::chars_eq(xc.as_slice(), yc.as_slice()) {
        let p = to_lowercase(a.0.as_str());
        let q = to_lowercase(b.0.as_str());
        str_le(p.as_str(), q.as_str())
    } else {
        chars_le(xc.as_slice(), yc.as_slice())
    }
}

/// Sorts the albums view by album name, then artist name, without regard to
/// case, keeping ties in order.
fn sort_entries(v: Vec<(String, Album)>) -> (r: Vec<(String, Album)>)
    ensures
        entries_view(r@) == sort_by(entries_view(v@), entry_order()),
{
    let mut v = v;
    let ghost original = entries_view(v@);
    assert(original.len() == v.len());
    let mut r: Vec<(String, Album)> = Vec::new();
    let mut consumed: usize = 0;
    assert(entries_view(r@) =~= sort_by(original.take(0), entry_order()));
    while v.len() > 0
        invariant
            consumed + v@.len() == original.len(),
            original.len() <= usize::MAX,
            entries_view(v@) == original.skip(consumed as int),
            entries_view(r@) == sort_by(original.take(consumed as int), entry_order()),
        decreases v@.len(),
    {
        let ghost before_v = entries_view(v@);
        assert(before_v[0] == original[consumed as int]);
        let x = v.remove(0);
        assert(before_v[0] == (x.0@, album_view(x.1)));
        assert(entries_view(v@) =~= before_v.drop_first());
        let mut p: usize = 0;
        while p < r.len() && entry_le_exec(&r[p], &x)
            invariant
                p <= r@.len(),
                forall|j: int|
                    0 <= j < p ==> entry_order()(
                        #[trigger] entries_view(r@)[j],
                        (x.0@, album_view(x.1)),
                    ),
            decreases r@.len() - p,
        {
            p = p + 1;
        }
        proof {
            lemma_insert_by_index(entries_view(r@), (x.0@, album_view(x.1)), entry_order(), p as int);
        }
        let ghost prefix = original.take(consumed + 1);
        assert(prefix.drop_last() == original.take(consumed as int));
        assert(prefix.last() == (x.0@, album_view(x.1)));
        let ghost before_r = entries_view(r@);
        r.insert(p, x);
        assert(entries_view(r@) =~= before_r.insert(p as int, (x.0@, album_view(x.1))));
        consumed = consumed + 1;
        assert(original.skip(consumed as int) =~= original.skip(consumed - 1).drop_first());
    }
    assert(original.take(original.len() as int) == original);
    r
}

/// One artist of a bulk load: a loaded artist is left alone; otherwise it
/// takes the songs gathered under its name (which are then used up) as its
/// albums, added to the albums view, or no albums when there are none.
pub open spec fn preload_one(
    a: Seq<ArtistView>,
    g: Seq<Group>,
    e: Seq<EntryView>,
    i: int,
) -> (Seq<ArtistView>, Seq<Group>, Seq<EntryView>) {
    if a[i].1 is Loaded {
        (a, g, e)
    } else {
        let gi = group_index(g, a[i].0);
        if gi >= 0 {
            let al = albums_of(g[gi].1);
            (
                a.update(i, (a[i].0, ArtistStatus::Loaded(al))),
                g.remove(gi),
                e + al.map_values(|x: AlbumView| (a[i].0, x)),
            )
        } else {
            (a.update(i, (a[i].0, ArtistStatus::Loaded(Seq::empty()))), g, e)
        }
    }
}

/// The first `n` artists of a bulk load, in order.
pub open spec fn preload_upto(
    a: Seq<ArtistView>,
    g: Seq<Group>,
    e: Seq<EntryView>,
    n: nat,
) -> (Seq<ArtistView>, Seq<Group>, Seq<EntryView>)
    decreases n,
{
    if n == 0 {
        (a, g, e)
    } else {
        let (a2, g2, e2) = preload_upto(a, g, e, (n - 1) as nat);
        preload_one(a2, g2, e2, n - 1)
    }
}

proof fn lemma_preload_keeps_names(a: Seq<ArtistView>, g: Seq<Group>, e: Seq<EntryView>, n: nat)
    requires
        n <= a.len(),
    ensures
        preload_upto(a, g, e, n).0.len() == a.len(),
        forall|j: int| 0 <= j < a.len() ==> (#[trigger] preload_upto(a, g, e, n).0[j]).0 == a[j].0,
        forall|j: int| n <= j < a.len() ==> (#[trigger] preload_upto(a, g, e, n).0[j]) == a[j],
    decreases n,
{
    if n > 0 {
        lemma_preload_keeps_names(a, g, e, (n - 1) as nat);
    }
}

fn has_entry(entries: &Vec<(String, Album)>, artist: &String, album: &String) -> (r: bool)
    ensures
        r == exists|j: int|
            0 <= j < entries@.len() && (#[trigger] entries_view(entries@)[j]).0 == artist@
                && entries_view(entries@)[j].1.0 == album@,
{
    let ghost m = entries_view(entries@);
    let mut j: usize = 0;
    while j < entries.len()
        invariant
            j <= entries@.len(),
            m == entries_view(entries@),
            forall|t: int| 0 <= t < j ==> !((#[trigger] m[t]).0 == artist@ && m[t].1.0 == album@),
        decreases entries@.len() - j,
    {
        let e = &entries[j];
        assert(m[j as int] == (e.0@, album_view(e.1)));
        if e.0 == *artist && e.1.name == *album {
            return true;
        }
        j = j + 1;
    }
    false
}

impl LazyLibrary {
    /// Starts loading an artist: out of bounds, nothing to do (already
    /// loaded or loading), or marks it loading and gives its name.
    pub fn begin_load_artist(&mut self, artist_index: usize) -> (r: LoadStart)
        ensures
            artist_index >= old(self).artists@.len() ==> r == LoadStart::OutOfBounds
                && *final(self) == *old(self),
            artist_index < old(self).artists@.len() ==> {
                let a = artists_view(old(self).artists@)[artist_index as int];
                if a.1 is Loaded || a.1 is Loading {
                    r == LoadStart::Skip && *final(self) == *old(self)
                } else {
                    &&& r matches LoadStart::Load(name) && name@ == a.0
                    &&& artists_view(final(self).artists@) == artists_view(
                        old(self).artists@,
                    ).update(artist_index as int, (a.0, ArtistStatus::Loading))
                    &&& final(self).all_albums == old(self).all_albums
                    &&& final(self).all_albums_complete == old(self).all_albums_complete
                    &&& final(self).all_albums_sorted == old(self).all_albums_sorted
                }
            },
    {
        if artist_index >= self.artists.len() {
            return LoadStart::OutOfBounds;
        }
        if self.artists[artist_index].is_loaded() || self.artists[artist_index].is_loading() {
            return LoadStart::Skip;
        }
        let name = self.artists[artist_index].name.clone();
        let ghost before = artists_view(self.artists@);
        self.artists.set(artist_index, LazyArtist { name: name.clone(), albums: ArtistData::Loading });
        assert(artists_view(self.artists@) =~= before.update(
            artist_index as int,
            (name@, ArtistStatus::Loading),
        ));
        LoadStart::Load(name)
    }

    /// A load that failed: the artist is not loaded again.
    pub fn cancel_load_artist(&mut self, artist_index: usize)
        requires
            artist_index < old(self).artists@.len(),
        ensures
            artists_view(final(self).artists@) == artists_view(old(self).artists@).update(
                artist_index as int,
                (old(self).artists@[artist_index as int].name@, ArtistStatus::NotLoaded),
            ),
            final(self).all_albums == old(self).all_albums,
            final(self).all_albums_complete == old(self).all_albums_complete,
            final(self).all_albums_sorted == old(self).all_albums_sorted,
    {
        let name = self.artists[artist_index].name.clone();
        let ghost before = artists_view(self.artists@);
        self.artists.set(artist_index, LazyArtist { name, albums: ArtistData::NotLoaded });
        assert(artists_view(self.artists@) =~= before.update(
            artist_index as int,
            (name@, ArtistStatus::NotLoaded),
        ));
    }

    fn every_artist_loaded(&self) -> (r: bool)
        ensures
            r == all_loaded(artists_view(self.artists@)),
    {
        let ghost v = artists_view(self.artists@);
        let mut i: usize = 0;
        while i < self.artists.len()
            invariant
                i <= self.artists@.len(),
                v == artists_view(self.artists@),
                forall|j: int| 0 <= j < i ==> (#[trigger] v[j]).1 is Loaded,
            decreases self.artists@.len() - i,
        {
            assert(v[i as int].1 == status_of(self.artists@[i as int].albums));
            if !self.artists[i].is_loaded() {
                return false;
            }
            i = i + 1;
        }
        true
    }

    /// A load that succeeded with the artist's songs: the albums of the
    /// songs become the artist's albums and join the albums view, which is
    /// then no longer known to be sorted.
    pub fn finish_load_artist(&mut self, artist_index: usize, songs: Vec<SongInfo>)
        requires
            artist_index < old(self).artists@.len(),
        ensures
            artists_view(final(self).artists@) == artists_view(old(self).artists@).update(
                artist_index as int,
                (old(self).artists@[artist_index as int].name@, ArtistStatus::Loaded(albums_of(songs@))),
            ),
            entries_view(final(self).all_albums@) == merge_entries(
                entries_view(old(self).all_albums@),
                old(self).artists@[artist_index as int].name@,
                albums_of(songs@),
            ),
            !final(self).all_albums_sorted,
            final(self).all_albums_complete == all_loaded(artists_view(final(self).artists@)),
    {
        let albums = albums_from_songs(songs);
        let artist_name = self.artists[artist_index].name.clone();
        let ghost av = albums_view(albums@);
        let ghost start = entries_view(self.all_albums@);
        let mut k: usize = 0;
        assert(av.take(0) == Seq::<AlbumView>::empty());
        while k < albums.len()
            invariant
                k <= albums@.len(),
                av == albums_view(albums@),
                entries_view(self.all_albums@) == merge_entries(start, artist_name@, av.take(k as int)),
                self.artists == old(self).artists,
                artist_index < self.artists@.len(),
                artist_name@ == old(self).artists@[artist_index as int].name@,
            decreases albums@.len() - k,
        {
            let album = &albums[k];
            let ghost prefix = av.take(k + 1);
            assert(prefix.drop_last() == av.take(k as int));
            assert(prefix.last() == album_view(*album));
            let ghost m = entries_view(self.all_albums@);
            let exists = has_entry(&self.all_albums, &artist_name, &album.name);
            if !exists {
                let ghost before = entries_view(self.all_albums@);
                let c = copy_album(album);
                self.all_albums.push((artist_name.clone(), c));
                assert(entries_view(self.all_albums@) =~= before.push(
                    (artist_name@, album_view(*album)),
                ));
            }
            k = k + 1;
        }
        assert(av.take(av.len() as int) == av);
        self.all_albums_sorted = false;
        let ghost before_artists = artists_view(self.artists@);
        self.artists.set(
            artist_index,
            LazyArtist { name: artist_name, albums: ArtistData::Loaded(albums) },
        );
        assert(artists_view(self.artists@) =~= before_artists.update(
            artist_index as int,
            (artist_name@, ArtistStatus::Loaded(av)),
        ));
        self.all_albums_complete = self.every_artist_loaded();
    }

    /// The artist at an index with its albums (none when not loaded), or
    /// `None` past the end.
    pub fn get_artist(&self, artist_index: usize) -> (r: Option<Artist>)
        ensures
            match r {
                Some(a) => artist_index < self.artists@.len() && a.name@
                    == self.artists@[artist_index as int].name@ && albums_view(a.albums@)
                    == match self.artists@[artist_index as int].albums {
                    ArtistData::Loaded(v) => albums_view(v@),
                    _ => Seq::empty(),
                },
                None => artist_index >= self.artists@.len(),
            },
    {
        if artist_index < self.artists.len() {
            Some(self.artists[artist_index].to_artist())
        } else {
            None
        }
    }

    /// Sorts the albums view by album name, then artist name, without regard
    /// to case, unless it is known to be sorted.
    pub fn ensure_albums_sorted(&mut self)
        ensures
            entries_view(final(self).all_albums@) == if old(self).all_albums_sorted {
                entries_view(old(self).all_albums@)
            } else {
                sort_by(entries_view(old(self).all_albums@), entry_order())
            },
            final(self).all_albums_sorted,
            final(self).artists == old(self).artists,
            final(self).all_albums_complete == old(self).all_albums_complete,
    {
        if !self.all_albums_sorted {
            let mut v: Vec<(String, Album)> = Vec::new();
            std::mem::swap(&mut v, &mut self.all_albums);
            self.all_albums = sort_entries(v);
            self.all_albums_sorted = true;
        }
    }

    /// Loads every artist at once from all songs of the library, each given
    /// with the name of its album artist: each artist not yet loaded takes
    /// the songs under its name (none when there are none); then the albums
    /// view is sorted and complete.
    pub fn apply_all_songs(&mut self, songs: Vec<(String, SongInfo)>)
        ensures
            ({
                let (a, _, e) = preload_upto(
                    artists_view(old(self).artists@),
                    group_keyed(songs@),
                    entries_view(old(self).all_albums@),
                    old(self).artists@.len(),
                );
                &&& artists_view(final(self).artists@) == a
                &&& entries_view(final(self).all_albums@) == sort_by(e, entry_order())
            }),
            final(self).all_albums_sorted,
            final(self).all_albums_complete,
    {
        let ghost a0 = artists_view(self.artists@);
        let ghost g0 = group_keyed(songs@);
        let ghost e0 = entries_view(self.all_albums@);
        let mut groups = group_by_key(songs);
        let n = self.artists.len();
        let mut i: usize = 0;
        while i < n
            invariant
                i <= n,
                n == self.artists@.len(),
                n == a0.len(),
                (artists_view(self.artists@), groups_view(groups@), entries_view(self.all_albums@))
                    == preload_upto(a0, g0, e0, i as nat),
            decreases n - i,
        {
            proof {
                lemma_preload_keeps_names(a0, g0, e0, i as nat);
            }
            let ghost av = artists_view(self.artists@);
            let ghost gv = groups_view(groups@);
            let ghost ev = entries_view(self.all_albums@);
            assert(av[i as int] == (self.artists@[i as int].name@, status_of(self.artists@[i as int].albums)));
            if !self.artists[i].is_loaded() {
                let name = self.artists[i].name.clone();
                match find_group_exec(&groups, &name) {
                    Some(gi) => {
                        proof {
                            lemma_group_index(gv, name@);
                        }
                        let ghost before_groups = groups@;
                        let (_, g) = groups.remove(gi);
                        assert(groups_view(groups@) =~= gv.remove(gi as int));
                        let albums = albums_from_songs(g);
                        let ghost al = albums_view(albums@);
                        let mut k: usize = 0;
                        while k < albums.len()
                            invariant
                                k <= albums@.len(),
                                al == albums_view(albums@),
                                self.artists@.len() == n,
                                i < n,
                                artists_view(self.artists@) == av,
                                entries_view(self.all_albums@) == ev + al.take(k as int).map_values(
                                    |x: AlbumView| (name@, x),
                                ),
                            decreases albums@.len() - k,
                        {
                            let ghost before = entries_view(self.all_albums@);
                            let c = copy_album(&albums[k]);
                            self.all_albums.push((name.clone(), c));
                            assert(entries_view(self.all_albums@) =~= before.push(
                                (name@, al[k as int]),
                            ));
                            k = k + 1;
                            assert(entries_view(self.all_albums@) =~= ev + al.take(
                                k as int,
                            ).map_values(|x: AlbumView| (name@, x)));
                        }
                        assert(al.take(al.len() as int) == al);
                        let ghost before_artists = artists_view(self.artists@);
                        self.artists.set(i, LazyArtist { name, albums: ArtistData::Loaded(albums) });
                        assert(artists_view(self.artists@) =~= before_artists.update(
                            i as int,
                            (name@, ArtistStatus::Loaded(al)),
                        ));
                    },
                    None => {
                        let ghost before_artists = artists_view(self.artists@);
                        let empty: Vec<Album> = Vec::new();
                        assert(albums_view(empty@) =~= Seq::<AlbumView>::empty());
                        self.artists.set(i, LazyArtist { name, albums: ArtistData::Loaded(empty) });
                        assert(artists_view(self.artists@) =~= before_artists.update(
                            i as int,
                            (name@, ArtistStatus::Loaded(Seq::empty())),
                        ));
                    },
                }
            }
            i = i + 1;
        }
        let mut v: Vec<(String, Album)> = Vec::new();
        std::mem::swap(&mut v, &mut self.all_albums);
        self.all_albums = sort_entries(v);
        self.all_albums_sorted = true;
        self.all_albums_complete = true;
    }
}

} // verus!
