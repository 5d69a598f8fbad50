//! The rows of an artist's album list, with albums expanded to their songs,
//! and what adding or toggling the selected row does.

use vstd::prelude::*;
use crate::library::{album_view, albums_view, AlbumView, Artist, LazyLibrary, entries_view};
use crate::song::SongInfo;
use crate::text::names;

verus! {

/// A row of an artist's album list: an album, or a song of an expanded album
/// with its duration in milliseconds and its file path.
#[derive(Debug, Clone)]
pub enum DisplayItem {
    Album(String),
    Song(String, Option<u64>, String),
}

/// A row as plain values.
pub enum RowView {
    Album(Seq<char>),
    Song(Seq<char>, Option<u64>, Seq<char>),
}

/// The plain view of a row.
pub open spec fn row_view(d: DisplayItem) -> RowView {
    match d {
        DisplayItem::Album(n) => RowView::Album(n@),
        DisplayItem::Song(t, d, p) => RowView::Song(t@, d, p@),
    }
}

/// The plain view of rows.
pub open spec fn rows_view(v: Seq<DisplayItem>) -> Seq<RowView> {
    v.map_values(|d: DisplayItem| row_view(d))
}

/// The set of expanded albums, each named by artist and album name.
pub struct ExpandedAlbums {
    entries: Vec<(String, String)>,
}

/// The plain view of a pair of names.
pub open spec fn pair_view(p: (String, String)) -> (Seq<char>, Seq<char>) {
    (p.0@, p.1@)
}

impl ExpandedAlbums {
    /// The expanded albums.
    pub closed spec fn set(&self) -> Set<(Seq<char>, Seq<char>)> {
        self.entries@.map_values(|p: (String, String)| pair_view(p)).to_set()
    }

    /// The number of expanded albums.
    pub closed spec fn count(&self) -> nat {
        self.entries@.len()
    }

    /// No album is listed twice.
    #[verifier::type_invariant]
    closed spec fn distinct(&self) -> bool {
        self.entries@.map_values(|p: (String, String)| pair_view(p)).no_duplicates()
    }

    /// No album expanded.
    pub fn new() -> (r: Self)
        ensures
            r.set() == Set::<(Seq<char>, Seq<char>)>::empty(),
            r.count() == 0,
    {
        let r = ExpandedAlbums { entries: Vec::new() };
        assert(r.entries@.map_values(|p: (String, String)| pair_view(p)).to_set() =~= Set::empty());
        r
    }

    fn position(&self, artist: &String, album: &String) -> (r: Option<usize>)
        ensures
            match r {
                Some(i) => i < self.entries@.len() && pair_view(self.entries@[i as int]) == (
                    artist@,
                    album@,
                ),
                None => !self.set().contains((artist@, album@)),
            },
    {
        let ghost v = self.entries@.map_values(|p: (String, String)| pair_view(p));
        let mut i: usize = 0;
        while i < self.entries.len()
            invariant
                i <= self.entries@.len(),
                v == self.entries@.map_values(|p: (String, String)| pair_view(p)),
                forall|j: int| 0 <= j < i ==> v[j] != (artist@, album@),
            decreases self.entries@.len() - i,
        {
            assert(v[i as int] == pair_view(self.entries@[i as int]));
            if self.entries[i].0 == *artist && self.entries[i].1 == *album {
                return Some(i);
            }
            i = i + 1;
        }
        proof {
            if v.to_set().contains((artist@, album@)) {
                assert(v.contains((artist@, album@)));
            }
        }
        None
    }

    /// Whether the album of this artist is expanded.
    pub fn contains(&self, artist: &String, album: &String) -> (r: bool)
        ensures
            r == self.set().contains((artist@, album@)),
    {
        match self.position(artist, album) {
            Some(i) => {
                let ghost v = self.entries@.map_values(|p: (String, String)| pair_view(p));
                assert(v[i as int] == (artist@, album@));
                true
            },
            None => false,
        }
    }

    /// The number of expanded albums.
    pub fn len(&self) -> (r: usize)
        ensures
            r == self.count(),
    {
        self.entries.len()
    }

    /// Expands a folded album, or folds an expanded one.
    pub fn toggle(&mut self, artist: String, album: String)
        ensures
            final(self).set() == if old(self).set().contains((artist@, album@)) {
                old(self).set().remove((artist@, album@))
            } else {
                old(self).set().insert((artist@, album@))
            },
    {
        proof {
            use_type_invariant(&*self);
        }
        let ghost key = (artist@, album@);
        let ghost v = self.entries@.map_values(|p: (String, String)| pair_view(p));
        match self.position(&artist, &album) {
            Some(i) => {
                assert(v[i as int] == key);
                let mut entries: Vec<(String, String)> = Vec::new();
                std::mem::swap(&mut entries, &mut self.entries);
                let ghost before = entries@;
                entries.remove(i);
                let ghost w = entries@.map_values(|p: (String, String)| pair_view(p));
                assert(w =~= v.remove(i as int));
                proof {
                    assert forall|x: (Seq<char>, Seq<char>)| #[trigger] w.to_set().contains(x) == v.to_set().remove(
                        key,
                    ).contains(x) by {
                        if w.to_set().contains(x) {
                            assert(w.contains(x));
                            let k = choose|k: int| 0 <= k < w.len() && w[k] == x;
                            if k < i {
                                assert(v[k] == x);
                            } else {
                                assert(v[k + 1] == x);
                            }
                            assert(v.contains(x));
                        }
                        if v.to_set().remove(key).contains(x) {
                            assert(v.contains(x));
                            let k = choose|k: int| 0 <= k < v.len() && v[k] == x;
                            assert(k != i);
                            if k < i {
                                assert(w[k] == x);
                            } else {
                                assert(w[k - 1] == x);
                            }
                            assert(w.contains(x));
                        }
                    }
                    assert(w.to_set() =~= v.to_set().remove(key));
                    assert(w.no_duplicates()) by {
                        assert forall|a: int, b: int| 0 <= a < w.len() && 0 <= b < w.len() && a != b implies w[a] != w[b] by {
                            let a2 = if a < i { a } else { a + 1 };
                            let b2 = if b < i { b } else { b + 1 };
                            assert(w[a] == v[a2] && w[b] == v[b2]);
                        }
                    }
                }
                self.entries = entries;
            },
            None => {
                let mut entries: Vec<(String, String)> = Vec::new();
                std::mem::swap(&mut entries, &mut self.entries);
                entries.push((artist, album));
                let ghost w = entries@.map_values(|p: (String, String)| pair_view(p));
                assert(w =~= v.push(key));
                proof {
                    assert(!v.contains(key)) by {
                        if v.contains(key) {
                            assert(v.to_set().contains(key));
                        }
                    }
                    assert forall|x: (Seq<char>, Seq<char>)| #[trigger] w.to_set().contains(x) == v.to_set().insert(
                        key,
                    ).contains(x) by {
                        if w.to_set().contains(x) {
                            assert(w.contains(x));
                            let k = choose|k: int| 0 <= k < w.len() && w[k] == x;
                            if k < v.len() {
                                assert(v[k] == x);
                                assert(v.contains(x));
                            }
                        }
                        if v.to_set().contains(x) {
                            assert(v.contains(x));
                            let k = choose|k: int| 0 <= k < v.len() && v[k] == x;
                            assert(w[k] == x);
                            assert(w.contains(x));
                        }
                        if x == key {
                            assert(w[v.len() as int] == x);
                            assert(w.contains(x));
                        }
                    }
                    assert(w.to_set() =~= v.to_set().insert(key));
                    assert(w.no_duplicates()) by {
                        assert forall|a: int, b: int| 0 <= a < w.len() && 0 <= b < w.len() && a != b implies w[a] != w[b] by {
                            if a < v.len() && b < v.len() {
                            } else if a == v.len() {
                                assert(w[b] == v[b]);
                                assert(v.contains(v[b]));
                            } else {
                                assert(w[a] == v[a]);
                                assert(v.contains(v[a]));
                            }
                        }
                    }
                }
                self.entries = entries;
            },
        }
    }
}

/// The rows of an artist's albums: each album, followed by its songs when
/// it is expanded.
pub open spec fn display_rows(
    artist: Seq<char>,
    albums: Seq<AlbumView>,
    expanded: Set<(Seq<char>, Seq<char>)>,
) -> Seq<RowView>
    decreases albums.len(),
{
    if albums.len() == 0 {
        Seq::empty()
    } else {
        let a = albums.last();
        display_rows(artist, albums.drop_last(), expanded).push(RowView::Album(a.0)) + if expanded.contains(
            (artist, a.0),
        ) {
            a.1.map_values(|s: SongInfo| RowView::Song(s.title@, s.duration_ms, s.file_path@))
        } else {
            Seq::empty()
        }
    }
}

/// For each row, the index of its album when it is an album row.
pub open spec fn row_albums(
    artist: Seq<char>,
    albums: Seq<AlbumView>,
    expanded: Set<(Seq<char>, Seq<char>)>,
) -> Seq<Option<usize>>
    decreases albums.len(),
{
    if albums.len() == 0 {
        Seq::empty()
    } else {
        let a = albums.last();
        row_albums(artist, albums.drop_last(), expanded).push(Some((albums.len() - 1) as usize))
            + if expanded.contains((artist, a.0)) {
            Seq::new(a.1.len(), |i: int| None::<usize>)
        } else {
            Seq::empty()
        }
    }
}

proof fn lemma_rows_same_length(
    artist: Seq<char>,
    albums: Seq<AlbumView>,
    expanded: Set<(Seq<char>, Seq<char>)>,
)
    ensures
        display_rows(artist, albums, expanded).len() == row_albums(artist, albums, expanded).len(),
    decreases albums.len(),
{
    if albums.len() > 0 {
        lemma_rows_same_length(artist, albums.drop_last(), expanded);
    }
}

/// The rows of an artist's album list and the album index of each row.
pub fn compute_album_display_list(artist: &Artist, expanded_albums: &ExpandedAlbums) -> (r: (
    Vec<DisplayItem>,
    Vec<Option<usize>>,
))
    ensures
        rows_view(r.0@) == display_rows(artist.name@, albums_view(artist.albums@), expanded_albums.set()),
        r.1@ == row_albums(artist.name@, albums_view(artist.albums@), expanded_albums.set()),
{
    let ghost av = albums_view(artist.albums@);
    let ghost ex = expanded_albums.set();
    let mut items: Vec<DisplayItem> = Vec::new();
    let mut indices: Vec<Option<usize>> = Vec::new();
    let mut i: usize = 0;
    while i < artist.albums.len()
        invariant
            i <= artist.albums@.len(),
            av == albums_view(artist.albums@),
            ex == expanded_albums.set(),
            rows_view(items@) == display_rows(artist.name@, av.take(i as int), ex),
            indices@ == row_albums(artist.name@, av.take(i as int), ex),
        decreases artist.albums@.len() - i,
    {
        let album = &artist.albums[i];
        let ghost prefix = av.take(i + 1);
        assert(prefix.drop_last() == av.take(i as int));
        assert(prefix.last() == album_view(*album));
        let ghost rows0 = rows_view(items@);
        let ghost idx0 = indices@;
        indices.push(Some(i));
        items.push(DisplayItem::Album(album.name.clone()));
        assert(rows_view(items@) =~= rows0.push(RowView::Album(album.name@)));
        let ghost rows1 = rows_view(items@);
        let ghost idx1 = indices@;
        if expanded_albums.contains(&artist.name, &album.name) {
            let ghost songs = album.tracks@.map_values(
                |s: SongInfo| RowView::Song(s.title@, s.duration_ms, s.file_path@),
            );
            let mut k: usize = 0;
            while k < album.tracks.len()
                invariant
                    k <= album.tracks@.len(),
                    songs == album.tracks@.map_values(
                        |s: SongInfo| RowView::Song(s.title@, s.duration_ms, s.file_path@),
                    ),
                    rows_view(items@) == rows1 + songs.take(k as int),
                    indices@ == idx1 + Seq::new(k as nat, |j: int| None::<usize>),
                decreases album.tracks@.len() - k,
            {
                let song = &album.tracks[k];
                let ghost before = rows_view(items@);
                indices.push(None);
                items.push(DisplayItem::Song(song.title.clone(), song.duration_ms, song.file_path.clone()));
                assert(rows_view(items@) =~= before.push(songs[k as int]));
                k = k + 1;
                assert(rows_view(items@) =~= rows1 + songs.take(k as int));
                assert(indices@ =~= idx1 + Seq::new(k as nat, |j: int| None::<usize>));
            }
            assert(songs.take(songs.len() as int) == songs);
        } else {
            assert(rows_view(items@) =~= rows1 + Seq::<RowView>::empty());
            assert(indices@ =~= idx1 + Seq::<Option<usize>>::empty());
        }
        i = i + 1;
    }
    assert(av.take(av.len() as int) == av);
    (items, indices)
}

/// A display list kept for one artist while the artist, the number of its
/// albums and the number of expanded albums stay the same.
pub struct AlbumDisplayCache {
    artist_index: Option<usize>,
    expanded_count: usize,
    albums_count: usize,
    display_items: Vec<DisplayItem>,
    album_indices: Vec<Option<usize>>,
}

impl AlbumDisplayCache {
    /// The artist the cached list was computed for.
    pub closed spec fn cached_for(&self) -> (Option<usize>, usize, usize) {
        (self.artist_index, self.expanded_count, self.albums_count)
    }

    /// The cached rows.
    pub closed spec fn items(&self) -> Seq<RowView> {
        rows_view(self.display_items@)
    }

    /// The cached album indices.
    pub closed spec fn indices(&self) -> Seq<Option<usize>> {
        self.album_indices@
    }

    /// An empty cache, valid for no artist.
    pub fn new() -> (r: Self)
        ensures
            r.cached_for() == (None::<usize>, 0usize, 0usize),
            r.items().len() == 0,
            r.indices().len() == 0,
    {
        AlbumDisplayCache {
            artist_index: None,
            expanded_count: 0,
            albums_count: 0,
            display_items: Vec::new(),
            album_indices: Vec::new(),
        }
    }

    /// The cached list is for this artist, count of expanded albums and count
    /// of albums.
    pub fn is_valid_for(&self, artist_index: usize, expanded_count: usize, albums_count: usize) -> (r: bool)
        ensures
            r == (self.cached_for() == (Some(artist_index), expanded_count, albums_count)),
    {
        match self.artist_index {
            Some(a) => a == artist_index && self.expanded_count == expanded_count
                && self.albums_count == albums_count,
            None => false,
        }
    }

    /// Makes the cache valid for no artist.
    pub fn invalidate(&mut self)
        ensures
            final(self).cached_for().0 is None,
            final(self).items() == old(self).items(),
            final(self).indices() == old(self).indices(),
    {
        self.artist_index = None;
    }

    /// The rows and album indices for the artist: the cached ones when the
    /// cache is valid for the artist, the number of its albums and the
    /// number of expanded albums, else computed anew and cached.
    pub fn get_or_compute(
        &mut self,
        artist_index: usize,
        artist: &Artist,
        expanded_albums: &ExpandedAlbums,
    ) -> (r: (&Vec<DisplayItem>, &Vec<Option<usize>>))
        ensures
            old(self).cached_for() == (
                Some(artist_index),
                expanded_albums.count() as usize,
                artist.albums@.len() as usize,
            ) ==> final(self).items() == old(self).items() && final(self).indices() == old(
                self,
            ).indices(),
            old(self).cached_for() != (
                Some(artist_index),
                expanded_albums.count() as usize,
                artist.albums@.len() as usize,
            ) ==> final(self).items() == display_rows(
                artist.name@,
                albums_view(artist.albums@),
                expanded_albums.set(),
            ) && final(self).indices() == row_albums(
                artist.name@,
                albums_view(artist.albums@),
                expanded_albums.set(),
            ),
            final(self).cached_for() == (
                Some(artist_index),
                expanded_albums.count() as usize,
                artist.albums@.len() as usize,
            ),
            rows_view(r.0@) == final(self).items(),
            r.1@ == final(self).indices(),
    {
        let count = expanded_albums.len();
        let albums = artist.albums.len();
        if !self.is_valid_for(artist_index, count, albums) {
            let (items, indices) = compute_album_display_list(artist, expanded_albums);
            self.artist_index = Some(artist_index);
            self.expanded_count = count;
            self.albums_count = albums;
            self.display_items = items;
            self.album_indices = indices;
        }
        (&self.display_items, &self.album_indices)
    }
}

/// What adding the selection to the queue takes.
#[derive(Debug, Clone)]
pub enum AddPlan {
    Nothing,
    /// Add these tracks of an album, in order (then play when the queue was empty).
    Album(Vec<String>),
    /// Add this song (then play when the queue was empty and it was added).
    Song(String),
}

/// What toggling the selected row takes.
#[derive(Debug, Clone)]
pub enum TogglePlan {
    Nothing,
    /// Expand or fold this artist's album.
    Toggle(String, String),
    /// Add this song (then play when the queue was empty and it was added).
    AddSong(String),
}

/// The file paths of tracks.
pub open spec fn track_paths(tracks: Seq<SongInfo>) -> Seq<Seq<char>> {
    tracks.map_values(|s: SongInfo| s.file_path@)
}

fn paths_of(tracks: &Vec<SongInfo>) -> (r: Vec<String>)
    ensures
        names(r@) == track_paths(tracks@),
{
    let mut r: Vec<String> = Vec::new();
    let mut i: usize = 0;
    while i < tracks.len()
        invariant
            i <= tracks@.len(),
            names(r@) == track_paths(tracks@).take(i as int),
        decreases tracks@.len() - i,
    {
        let ghost before = names(r@);
        r.push(tracks[i].file_path.clone());
        assert(names(r@) =~= before.push(tracks@[i as int].file_path@));
        i = i + 1;
        assert(names(r@) =~= track_paths(tracks@).take(i as int));
    }
    assert(track_paths(tracks@).take(tracks@.len() as int) == track_paths(tracks@));
    r
}

/// The index of the first album with the name, or -1.
pub open spec fn album_named(albums: Seq<AlbumView>, name: Seq<char>) -> int
    decreases albums.len(),
{
    if albums.len() == 0 {
        -1
    } else if albums[0].0 == name {
        0
    } else {
        let r = album_named(albums.drop_first(), name);
        if r < 0 {
            -1
        } else {
            r + 1
        }
    }
}

/// The row at the selection, if any.
pub open spec fn selected_row(rows: Seq<RowView>, sel: Option<usize>) -> Option<RowView> {
    match sel {
        Some(i) => if i < rows.len() {
            Some(rows[i as int])
        } else {
            None
        },
        None => None,
    }
}

fn find_album(albums: &Vec<crate::library::Album>, name: &String) -> (r: Option<usize>)
    ensures
        match r {
            Some(i) => album_named(albums_view(albums@), name@) == i && i < albums@.len(),
            None => album_named(albums_view(albums@), name@) == -1,
        },
{
    let ghost av = albums_view(albums@);
    let mut i: usize = 0;
    assert(av.skip(0) == av);
    while i < albums.len()
        invariant
            i <= albums@.len(),
            av == albums_view(albums@),
            album_named(av, name@) == if album_named(av.skip(i as int), name@) < 0 {
                -1
            } else {
                album_named(av.skip(i as int), name@) + i
            },
        decreases albums@.len() - i,
    {
        assert(av.skip(i as int)[0] == album_view(albums@[i as int]));
        assert(av.skip(i as int).drop_first() == av.skip(i + 1));
        if albums[i].name == *name {
            return Some(i);
        }
        i = i + 1;
    }
    None
}

/// Toggling the selected row of an artist's album list: an album is
/// expanded or folded, a song is added to the queue.
pub fn album_toggle_plan(artist: &Artist, expanded_albums: &ExpandedAlbums, display_index: Option<usize>) -> (r: TogglePlan)
    ensures
        match selected_row(
            display_rows(artist.name@, albums_view(artist.albums@), expanded_albums.set()),
            display_index,
        ) {
            Some(RowView::Album(n)) => r matches TogglePlan::Toggle(a, b) && a@ == artist.name@
                && b@ == n,
            Some(RowView::Song(_, _, p)) => r matches TogglePlan::AddSong(q) && q@ == p,
            None => r is Nothing,
        },
{
    match display_index {
        Some(i) => {
            let (items, _) = compute_album_display_list(artist, expanded_albums);
            if i < items.len() {
                assert(rows_view(items@)[i as int] == row_view(items@[i as int]));
                match &items[i] {
                    DisplayItem::Album(n) => TogglePlan::Toggle(artist.name.clone(), n.clone()),
                    DisplayItem::Song(_, _, p) => TogglePlan::AddSong(p.clone()),
                }
            } else {
                TogglePlan::Nothing
            }
        },
        None => TogglePlan::Nothing,
    }
}

/// Adding the selected row of an artist's album list: the tracks of the
/// first album of that name, or the song.
pub fn context_add_plan(artist: &Artist, expanded_albums: &ExpandedAlbums, display_index: Option<usize>) -> (r: AddPlan)
    ensures
        match selected_row(
            display_rows(artist.name@, albums_view(artist.albums@), expanded_albums.set()),
            display_index,
        ) {
            Some(RowView::Album(n)) => {
                let k = album_named(albums_view(artist.albums@), n);
                if k >= 0 {
                    r matches AddPlan::Album(v) && names(v@) == track_paths(albums_view(artist.albums@)[k].1)
                } else {
                    r is Nothing
                }
            },
            Some(RowView::Song(_, _, p)) => r matches AddPlan::Song(q) && q@ == p,
            None => r is Nothing,
        },
{
    match display_index {
        Some(i) => {
            let (items, _) = compute_album_display_list(artist, expanded_albums);
            if i < items.len() {
                assert(rows_view(items@)[i as int] == row_view(items@[i as int]));
                match &items[i] {
                    DisplayItem::Album(n) => match find_album(&artist.albums, n) {
                        Some(k) => {
                            assert(albums_view(artist.albums@)[k as int] == album_view(artist.albums@[k as int]));
                            AddPlan::Album(paths_of(&artist.albums[k].tracks))
                        },
                        None => AddPlan::Nothing,
                    },
                    DisplayItem::Song(_, _, p) => AddPlan::Song(p.clone()),
                }
            } else {
                AddPlan::Nothing
            }
        },
        None => AddPlan::Nothing,
    }
}

/// The selected album of the albums view, when the selection is within it.
pub open spec fn selected_entry(lib: &LazyLibrary, album_sel: Option<usize>) -> Option<AlbumView> {
    match album_sel {
        Some(i) => if i < lib.all_albums@.len() {
            Some(entries_view(lib.all_albums@)[i as int].1)
        } else {
            None
        },
        None => None,
    }
}

/// Adding in the albums view's track panel: the selected track of the
/// selected album.
pub fn album_view_song(lib: &LazyLibrary, album_sel: Option<usize>, track_sel: Option<usize>) -> (r: Option<String>)
    ensures
        match (selected_entry(lib, album_sel), track_sel) {
            (Some(a), Some(t)) if t < a.1.len() => r matches Some(p) && p@ == a.1[t as int].file_path@,
            _ => r is None,
        },
{
    match (album_sel, track_sel) {
        (Some(i), Some(t)) => {
            if i < lib.all_albums.len() {
                let album = &lib.all_albums[i].1;
                assert(entries_view(lib.all_albums@)[i as int].1 == album_view(*album));
                if t < album.tracks.len() {
                    Some(album.tracks[t].file_path.clone())
                } else {
                    None
                }
            } else {
                None
            }
        },
        (Some(i), None) => None,
        _ => None,
    }
}

/// Adding in the albums view's album panel: every track of the selected album.
pub fn album_view_album(lib: &LazyLibrary, album_sel: Option<usize>) -> (r: Option<Vec<String>>)
    ensures
        match selected_entry(lib, album_sel) {
            Some(a) => r matches Some(v) && names(v@) == track_paths(a.1),
            None => r is None,
        },
{
    match album_sel {
        Some(i) => {
            if i < lib.all_albums.len() {
                let album = &lib.all_albums[i].1;
                assert(entries_view(lib.all_albums@)[i as int].1 == album_view(*album));
                Some(paths_of(&album.tracks))
            } else {
                None
            }
        },
        None => None,
    }
}

} // verus!
