//! The decisions of the client's event loop: what to fetch after the server
//! announces a change, how the queue selection follows the queue, and what a
//! key press leads to.

use vstd::prelude::*;
use crate::actions::{MPDAction, changes_player};
use crate::library::{LazyArtist, LazyLibrary};
use crate::navigation::{NavState, NavView};
use crate::pipewire::{rates_view, resolved_rate};
use crate::song::{PlayState, SongInfo};
use crate::text::str_eq;

verus! {

/// The parts of the server whose changes it announces.
#[derive(Debug, Clone, Copy, PartialEq, Eq, Structural)]
pub enum Subsystem {
    Database,
    Message,
    Mixer,
    Options,
    Output,
    Partition,
    Player,
    /// The queue (`playlist` in the protocol).
    Queue,
    Sticker,
    StoredPlaylist,
    Subscription,
    Update,
    Neighbor,
    Mount,
    /// A subsystem the protocol names but the client does not know.
    Other,
    /// A kind of announcement added after this client was written.
    Unknown,
}

/// What to fetch after a change was announced.
#[derive(Debug, Clone, Copy, PartialEq, Eq, Structural)]
pub enum Refresh {
    /// Nothing shown depends on it.
    Nothing,
    /// The status alone (volume, options).
    StatusOnly,
    /// The status, and the current song if it changed.
    StatusAndSong,
    /// The status, and the queue and the current song where they changed.
    Full,
    /// The library, after a database update finished.
    Library,
}

/// What each announcement asks to fetch.
pub open spec fn refresh_spec(s: Subsystem) -> Refresh {
    match s {
        Subsystem::Player => Refresh::StatusAndSong,
        Subsystem::Mixer | Subsystem::Options => Refresh::StatusOnly,
        Subsystem::Queue | Subsystem::StoredPlaylist | Subsystem::Unknown => Refresh::Full,
        Subsystem::Update => Refresh::Library,
        _ => Refresh::Nothing,
    }
}

/// What to fetch after the server announced a change of `s`.
pub fn refresh_for(s: Subsystem) -> (r: Refresh)
    ensures
        r == refresh_spec(s),
{
    match s {
        Subsystem::Player => Refresh::StatusAndSong,
        Subsystem::Mixer | Subsystem::Options => Refresh::StatusOnly,
        Subsystem::Queue | Subsystem::StoredPlaylist | Subsystem::Unknown => Refresh::Full,
        Subsystem::Update => Refresh::Library,
        _ => Refresh::Nothing,
    }
}

/// What the last update saw of the queue and the current song.
#[derive(Debug, Clone, Copy, PartialEq, Eq, Structural)]
pub struct SyncState {
    /// The version of the queue when it was last fetched.
    pub last_playlist_version: Option<u32>,
    /// The id of the current song when it was last fetched.
    pub last_song_id: Option<u64>,
}

/// Which parts an update fetches besides the status.
#[derive(Debug, Clone, Copy, PartialEq, Eq, Structural)]
pub struct UpdatePlan {
    pub fetch_queue: bool,
    pub fetch_song: bool,
}

/// The queue changed since it was last fetched (or was never fetched).
pub open spec fn queue_changed(last: Option<u32>, version: u32) -> bool {
    match last {
        Some(v) => v != version,
        None => true,
    }
}

/// The parts to fetch: those asked for that changed.
pub open spec fn plan_spec(
    s: SyncState,
    needs_queue: bool,
    needs_song: bool,
    playlist_version: u32,
    song_id: Option<u64>,
) -> UpdatePlan {
    UpdatePlan {
        fetch_queue: needs_queue && queue_changed(s.last_playlist_version, playlist_version),
        fetch_song: needs_song && s.last_song_id != song_id,
    }
}

/// What is known after the planned parts were fetched.
pub open spec fn after_fetch(
    s: SyncState,
    p: UpdatePlan,
    playlist_version: u32,
    song_id: Option<u64>,
) -> SyncState {
    SyncState {
        last_playlist_version: if p.fetch_queue {
            Some(playlist_version)
        } else {
            s.last_playlist_version
        },
        last_song_id: if p.fetch_song {
            song_id
        } else {
            s.last_song_id
        },
    }
}

impl SyncState {
    /// Nothing fetched yet.
    pub fn new() -> (r: Self)
        ensures
            r.last_playlist_version is None,
            r.last_song_id is None,
    {
        SyncState { last_playlist_version: None, last_song_id: None }
    }

    /// The parts an update fetches, given what it needs and the queue
    /// version and current song id of the status just read.
    pub fn plan(
        &self,
        needs_queue: bool,
        needs_current_song: bool,
        playlist_version: u32,
        song_id: Option<u64>,
    ) -> (r: UpdatePlan)
        ensures
            r == plan_spec(*self, needs_queue, needs_current_song, playlist_version, song_id),
    {
        let queue_changed = match self.last_playlist_version {
            Some(v) => v != playlist_version,
            None => true,
        };
        UpdatePlan {
            fetch_queue: needs_queue && queue_changed,
            fetch_song: needs_current_song && self.last_song_id != song_id,
        }
    }

    /// Records the queue version once the queue was fetched.
    pub fn queue_fetched(&mut self, playlist_version: u32)
        ensures
            *final(self) == (SyncState {
                last_playlist_version: Some(playlist_version),
                ..*old(self)
            }),
    {
        self.last_playlist_version = Some(playlist_version);
    }

    /// Records the song id once the current song was fetched.
    pub fn song_fetched(&mut self, song_id: Option<u64>)
        ensures
            *final(self) == (SyncState { last_song_id: song_id, ..*old(self) }),
    {
        self.last_song_id = song_id;
    }
}

/// Once an update fetched what it needed, an update that finds the same
/// queue version and current song fetches nothing more.
pub proof fn lemma_update_settles(
    s: SyncState,
    needs_queue: bool,
    needs_song: bool,
    playlist_version: u32,
    song_id: Option<u64>,
)
    ensures
        ({
            let p = plan_spec(s, needs_queue, needs_song, playlist_version, song_id);
            let t = after_fetch(s, p, playlist_version, song_id);
            let q = plan_spec(t, needs_queue, needs_song, playlist_version, song_id);
            !q.fetch_queue && !q.fetch_song
        }),
{
}

/// The queue selection after the queue was read again: a selection past
/// the end moves to the last song, and the first song is selected when
/// there was no selection; an empty queue has none.
pub open spec fn kept_selection(sel: Option<usize>, len: usize) -> Option<usize> {
    match sel {
        Some(s) => if s < len {
            Some(s)
        } else if len == 0 {
            None
        } else {
            Some((len - 1) as usize)
        },
        None => if len == 0 {
            None
        } else {
            Some(0)
        },
    }
}

impl NavState {
    /// Keeps the queue selection within a queue of `queue_len` songs.
    pub fn update_queue_selection(&mut self, queue_len: usize)
        ensures
            final(self)@ == (NavView {
                queue_selected: kept_selection(old(self)@.queue_selected, queue_len),
                selected_queue_index: kept_selection(old(self)@.queue_selected, queue_len),
                ..old(self)@
            }),
    {
        let sel = match self.queue_selected {
            Some(s) => if s < queue_len {
                Some(s)
            } else if queue_len == 0 {
                None
            } else {
                Some(queue_len - 1)
            },
            None => if queue_len == 0 {
                None
            } else {
                Some(0)
            },
        };
        self.queue_selected = sel;
        self.selected_queue_index = sel;
    }
}

/// After the queue was read again, a song is selected exactly when the
/// queue is not empty, and the selection lies within the queue.
pub proof fn lemma_kept_selection_in_queue(sel: Option<usize>, len: usize)
    ensures
        kept_selection(sel, len) is Some <==> len > 0,
        kept_selection(sel, len) matches Some(i) ==> i < len,
        sel matches Some(s) && s < len ==> kept_selection(sel, len) == sel,
{
}

/// The kinds of status message the interface shows.
#[derive(Debug, Clone, Copy, PartialEq, Eq, Structural)]
pub enum MessageType {
    Success,
    Error,
    InProgress,
}

/// What the client remembers of a database update it asked for.
#[derive(Debug, Clone)]
pub struct ReloadTracker {
    /// An update is under way; a new request is dropped.
    pub update_in_progress: bool,
    /// The user asked for the update under way.
    pub user_initiated_reload: bool,
    /// The library must be read again when the update finishes.
    pub library_reload_pending: bool,
    /// The artist selected when the update was asked for.
    pub pending_artist: Option<String>,
}

/// How a finished database update is to be handled.
#[derive(Debug, Clone)]
pub enum ReloadKind {
    /// An update the client asked for: the library is read again, the
    /// outcome announced when the user asked, and the artist selected
    /// before found again by name.
    Requested { announce: bool, previous_artist: Option<String> },
    /// An update made by someone else: the library is read again quietly.
    External,
}

impl ReloadTracker {
    /// No update under way.
    pub fn new() -> (r: Self)
        ensures
            !r.update_in_progress,
            !r.user_initiated_reload,
            !r.library_reload_pending,
            r.pending_artist is None,
    {
        ReloadTracker {
            update_in_progress: false,
            user_initiated_reload: false,
            library_reload_pending: false,
            pending_artist: None,
        }
    }

    /// The user asks to update the database: `false` when an update is
    /// under way (the request is dropped); otherwise the request is
    /// remembered as the user's and the update command is to be sent.
    pub fn begin_refresh(&mut self) -> (r: bool)
        ensures
            r == !old(self).update_in_progress,
            r ==> *final(self) == (ReloadTracker { user_initiated_reload: true, ..*old(self) }),
            !r ==> *final(self) == *old(self),
    {
        if self.update_in_progress {
            return false;
        }
        self.user_initiated_reload = true;
        true
    }

    /// The server accepted the update command: the library is to be read
    /// again when it finishes, and the artist selected now is remembered.
    /// The message to show is returned.
    pub fn refresh_started(&mut self, selected_artist: Option<String>) -> (m: MessageType)
        ensures
            m == MessageType::InProgress,
            *final(self) == (ReloadTracker {
                library_reload_pending: true,
                pending_artist: selected_artist,
                ..*old(self)
            }),
    {
        self.library_reload_pending = true;
        self.pending_artist = selected_artist;
        MessageType::InProgress
    }

    /// The server announced that a database update finished.
    pub fn on_database_updated(&mut self) -> (k: ReloadKind)
        ensures
            old(self).library_reload_pending ==> k == (ReloadKind::Requested {
                announce: old(self).user_initiated_reload,
                previous_artist: old(self).pending_artist,
            }) && *final(self) == (ReloadTracker {
                update_in_progress: false,
                user_initiated_reload: false,
                library_reload_pending: false,
                pending_artist: None,
            }),
            !old(self).library_reload_pending ==> k == ReloadKind::External && *final(self)
                == *old(self),
    {
        if self.library_reload_pending {
            let announce = self.user_initiated_reload;
            self.update_in_progress = false;
            self.user_initiated_reload = false;
            self.library_reload_pending = false;
            let previous_artist = self.pending_artist.take();
            ReloadKind::Requested { announce, previous_artist }
        } else {
            ReloadKind::External
        }
    }
}

/// The message shown once the library was read again: only when the user
/// asked for the update, success or the error.
pub fn reload_message(announce: bool, loaded: bool) -> (r: Option<MessageType>)
    ensures
        r == (if !announce {
            None
        } else if loaded {
            Some(MessageType::Success)
        } else {
            Some(MessageType::Error)
        }),
{
    if !announce {
        None
    } else if loaded {
        Some(MessageType::Success)
    } else {
        Some(MessageType::Error)
    }
}

/// The names of the library's artists, in order.
pub open spec fn artist_names(library: LazyLibrary) -> Seq<Seq<char>> {
    library.artists@.map_values(|a: LazyArtist| a.name@)
}

/// The first position of `name` in `names`.
pub open spec fn first_position(names: Seq<Seq<char>>, name: Seq<char>) -> Option<int>
    decreases names.len(),
{
    if names.len() == 0 {
        None
    } else {
        match first_position(names.drop_last(), name) {
            Some(i) => Some(i),
            None => if names.last() == name {
                Some(names.len() - 1)
            } else {
                None
            },
        }
    }
}

proof fn lemma_first_position(names: Seq<Seq<char>>, name: Seq<char>)
    ensures
        first_position(names, name) matches Some(i) ==> 0 <= i < names.len() && names[i] == name
            && forall|j: int| 0 <= j < i ==> names[j] != name,
        first_position(names, name) is None ==> forall|j: int|
            0 <= j < names.len() ==> names[j] != name,
    decreases names.len(),
{
    if names.len() > 0 {
        let d = names.drop_last();
        lemma_first_position(d, name);
        assert forall|j: int| 0 <= j < d.len() implies d[j] == names[j] by {}
    }
}

/// The position of the artist of that name in the library.
pub fn artist_position(library: &LazyLibrary, name: &str) -> (r: Option<usize>)
    ensures
        r == (match first_position(artist_names(*library), name@) {
            Some(i) => Some(i as usize),
            None => None,
        }),
{
    let ghost ns = artist_names(*library);
    let mut i: usize = 0;
    while i < library.artists.len()
        invariant
            i <= library.artists@.len(),
            ns == artist_names(*library),
            first_position(ns.take(i as int), name@) is None,
        decreases library.artists.len() - i,
    {
        assert(ns.take(i as int + 1).drop_last() == ns.take(i as int));
        assert(ns[i as int] == library.artists@[i as int].name@);
        assert(ns.take(i as int + 1).last() == ns[i as int]);
        if str_eq(library.artists[i].name.as_str(), name) {
            assert(first_position(ns.take(i as int + 1), name@) == Some(i as int));
            proof {
                lemma_first_position_prefix(ns, name@, i as int + 1);
            }
            return Some(i);
        }
        i = i + 1;
    }
    assert(ns.take(i as int) == ns);
    None
}

/// A position found in a prefix is the position in the whole sequence.
proof fn lemma_first_position_prefix(names: Seq<Seq<char>>, name: Seq<char>, k: int)
    requires
        0 <= k <= names.len(),
        first_position(names.take(k), name) is Some,
    ensures
        first_position(names, name) == first_position(names.take(k), name),
    decreases names.len() - k,
{
    if k < names.len() {
        assert(names.take(k + 1).drop_last() == names.take(k));
        lemma_first_position_prefix(names, name, k + 1);
    } else {
        assert(names.take(k) == names);
    }
}

/// The name of the selected artist, when an artist is selected.
pub fn selected_artist_name(library: &Option<LazyLibrary>, selected: Option<usize>) -> (r: Option<
    String,
>)
    ensures
        r == (match (library, selected) {
            (Some(l), Some(i)) => if i < l.artists@.len() {
                Some(l.artists@[i as int].name)
            } else {
                None
            },
            _ => None,
        }),
{
    match (library, selected) {
        (Some(l), Some(i)) => if i < l.artists.len() {
            Some(l.artists[i].name.clone())
        } else {
            None
        },
        _ => None,
    }
}

/// How the artists view follows a library read again.
#[derive(Debug, Clone, Copy, PartialEq, Eq, Structural)]
pub struct ReloadSelection {
    /// The artist to select; `None` leaves the selection as it is.
    pub select_artist: Option<usize>,
    /// The artist whose albums to load.
    pub load_artist: Option<usize>,
    /// The album selections and the expanded albums are cleared.
    pub clear_albums: bool,
}

/// The first artist, when there is one.
pub open spec fn first_artist(names: Seq<Seq<char>>) -> Option<usize> {
    if names.len() > 0 {
        Some(0usize)
    } else {
        None
    }
}

/// The artist found by name, or the first artist.
pub open spec fn found_or_first(names: Seq<Seq<char>>, name: Option<Seq<char>>) -> Option<usize> {
    match name {
        Some(n) => match first_position(names, n) {
            Some(i) => Some(i as usize),
            None => first_artist(names),
        },
        None => first_artist(names),
    }
}

/// After an update the user asked for: the artist selected before is found
/// again by name (else the first artist), selected and loaded; album
/// selections are cleared.
pub open spec fn after_requested_reload(
    names: Seq<Seq<char>>,
    previous: Option<Seq<char>>,
) -> ReloadSelection {
    ReloadSelection {
        select_artist: found_or_first(names, previous),
        load_artist: found_or_first(names, previous),
        clear_albums: true,
    }
}

/// After an update made by someone else: an artist still there stays
/// selected with its album selections; one that is gone gives way to the
/// first artist and the album selections are cleared; with no artist
/// selected the first is selected and loaded.
pub open spec fn after_external_reload(
    names: Seq<Seq<char>>,
    current: Option<Seq<char>>,
) -> ReloadSelection {
    match current {
        Some(n) => match first_position(names, n) {
            Some(i) => ReloadSelection {
                select_artist: Some(i as usize),
                load_artist: None,
                clear_albums: false,
            },
            None => ReloadSelection {
                select_artist: first_artist(names),
                load_artist: None,
                clear_albums: true,
            },
        },
        None => ReloadSelection {
            select_artist: first_artist(names),
            load_artist: first_artist(names),
            clear_albums: false,
        },
    }
}

/// The view of an optional name.
pub open spec fn name_view(n: Option<String>) -> Option<Seq<char>> {
    match n {
        Some(s) => Some(s@),
        None => None,
    }
}

fn position_or_first(library: &LazyLibrary, name: &Option<String>) -> (r: Option<usize>)
    ensures
        r == found_or_first(artist_names(*library), name_view(*name)),
{
    let first = if library.artists.len() > 0 {
        Some(0usize)
    } else {
        None
    };
    match name {
        Some(n) => match artist_position(library, n.as_str()) {
            Some(i) => Some(i),
            None => first,
        },
        None => first,
    }
}

/// The selection after a library read again for an update the user asked
/// for; `previous` is the artist selected when it was asked.
pub fn selection_after_requested_reload(library: &LazyLibrary, previous: &Option<String>) -> (r:
    ReloadSelection)
    ensures
        r == after_requested_reload(artist_names(*library), name_view(*previous)),
{
    let target = position_or_first(library, previous);
    ReloadSelection { select_artist: target, load_artist: target, clear_albums: true }
}

/// The selection after a library read again for an update made by someone
/// else; `current` is the artist selected before it was read.
pub fn selection_after_external_reload(library: &LazyLibrary, current: &Option<String>) -> (r:
    ReloadSelection)
    ensures
        r == after_external_reload(artist_names(*library), name_view(*current)),
{
    let first = if library.artists.len() > 0 {
        Some(0usize)
    } else {
        None
    };
    match current {
        Some(n) => match artist_position(library, n.as_str()) {
            Some(i) => ReloadSelection { select_artist: Some(i), load_artist: None, clear_albums: false },
            None => ReloadSelection { select_artist: first, load_artist: None, clear_albums: true },
        },
        None => ReloadSelection { select_artist: first, load_artist: first, clear_albums: false },
    }
}

/// An artist still in the library after it was read again is selected
/// again, whoever asked for the update.
pub proof fn lemma_reload_keeps_artist(names: Seq<Seq<char>>, name: Seq<char>, k: int)
    requires
        0 <= k < names.len(),
        names[k] == name,
        names.len() <= usize::MAX,
    ensures
        after_requested_reload(names, Some(name)).select_artist matches Some(i) && names[i as int]
            == name,
        after_external_reload(names, Some(name)).select_artist matches Some(i) && names[i as int]
            == name,
        !after_external_reload(names, Some(name)).clear_albums,
{
    lemma_first_position(names, name);
}

/// What to ask of the audio server about its sample rate.
#[derive(Debug, Clone, Copy, PartialEq, Eq, Structural)]
pub enum RateAction {
    Nothing,
    /// Force this sample rate.
    SetRate(u32),
    /// Let the server choose its rate again.
    Reset,
}

/// The rate to force for a song of `song_rate`, when the supported rates
/// are known.
pub open spec fn forced_rate(song_rate: u32, supported: Option<Seq<u32>>) -> RateAction {
    match supported {
        Some(rates) => RateAction::SetRate(resolved_rate(song_rate, rates)),
        None => RateAction::Nothing,
    }
}

fn force_rate(song_rate: u32, supported: &Option<Vec<u32>>) -> (r: RateAction)
    ensures
        r == forced_rate(song_rate, rates_view(*supported)),
{
    match supported {
        Some(rates) => RateAction::SetRate(
            crate::pipewire::resolve_bit_perfect_rate(song_rate, rates.as_slice()),
        ),
        None => RateAction::Nothing,
    }
}

/// What the sample-rate control saw at the last change.
#[derive(Debug, Clone, Copy, PartialEq, Eq, Structural)]
pub struct RateTracker {
    pub last_play_state: Option<PlayState>,
    pub last_sample_rate: Option<u32>,
}

/// One change of the player seen by the sample-rate control. When it is
/// active: playback that starts, or a song of another rate while playing,
/// forces the song's rate; pausing or stopping after playback (or from an
/// unknown state) lets the server choose again; and the state is
/// remembered. When inactive nothing happens.
pub open spec fn rate_step(
    t: RateTracker,
    active: bool,
    play_state: Option<PlayState>,
    sample_rate: Option<u32>,
    supported: Option<Seq<u32>>,
) -> (RateAction, RateTracker) {
    if !active {
        (RateAction::Nothing, t)
    } else {
        let action = if play_state == Some(PlayState::Playing) {
            if (play_state != t.last_play_state || sample_rate != t.last_sample_rate)
                && sample_rate is Some {
                forced_rate(sample_rate->0, supported)
            } else {
                RateAction::Nothing
            }
        } else if t.last_play_state == Some(PlayState::Playing) || t.last_play_state is None {
            RateAction::Reset
        } else {
            RateAction::Nothing
        };
        (action, RateTracker { last_play_state: play_state, last_sample_rate: sample_rate })
    }
}

impl RateTracker {
    /// Nothing seen yet.
    pub fn new() -> (r: Self)
        ensures
            r.last_play_state is None,
            r.last_sample_rate is None,
    {
        RateTracker { last_play_state: None, last_sample_rate: None }
    }

    /// A change of the player: `active` when bit-perfect mode is on and
    /// available, with the play state, the current song's sample rate and
    /// the rates the audio server supports.
    pub fn on_player_change(
        &mut self,
        active: bool,
        play_state: Option<PlayState>,
        sample_rate: Option<u32>,
        supported: &Option<Vec<u32>>,
    ) -> (a: RateAction)
        ensures
            (a, *final(self)) == rate_step(
                *old(self),
                active,
                play_state,
                sample_rate,
                rates_view(*supported),
            ),
    {
        if !active {
            return RateAction::Nothing;
        }
        let action = if play_state == Some(PlayState::Playing) {
            let changed = play_state != self.last_play_state || sample_rate != self.last_sample_rate;
            match sample_rate {
                Some(rate) => if changed {
                    force_rate(rate, supported)
                } else {
                    RateAction::Nothing
                },
                None => RateAction::Nothing,
            }
        } else {
            match self.last_play_state {
                Some(PlayState::Playing) | None => RateAction::Reset,
                _ => RateAction::Nothing,
            }
        };
        self.last_play_state = play_state;
        self.last_sample_rate = sample_rate;
        action
    }
}

/// The same player state seen twice in a row asks nothing the second time.
pub proof fn lemma_rate_step_settles(
    t: RateTracker,
    play_state: Option<PlayState>,
    sample_rate: Option<u32>,
    supported: Option<Seq<u32>>,
)
    requires
        play_state is Some,
    ensures
        ({
            let u = rate_step(t, true, play_state, sample_rate, supported).1;
            rate_step(u, true, play_state, sample_rate, supported).0 == RateAction::Nothing
        }),
{
}

/// The rate to force when the program starts: bit-perfect mode on and
/// available, a song playing whose rate is known.
pub fn startup_rate(
    active: bool,
    play_state: Option<PlayState>,
    song_rate: Option<u32>,
    supported: &Option<Vec<u32>>,
) -> (r: RateAction)
    ensures
        r == (if active && play_state == Some(PlayState::Playing) && song_rate is Some {
            forced_rate(song_rate->0, rates_view(*supported))
        } else {
            RateAction::Nothing
        }),
{
    if active && play_state == Some(PlayState::Playing) {
        match song_rate {
            Some(rate) => force_rate(rate, supported),
            None => RateAction::Nothing,
        }
    } else {
        RateAction::Nothing
    }
}

/// Turning bit-perfect mode on or off, which only works when it is
/// available: on, the playing song's rate is forced; off, the server
/// chooses again. Gives the new setting and what to ask of the server.
pub open spec fn toggle_spec(
    enabled: bool,
    available: bool,
    play_state: Option<PlayState>,
    song_rate: Option<u32>,
    supported: Option<Seq<u32>>,
) -> (bool, RateAction) {
    if !available {
        (enabled, RateAction::Nothing)
    } else if enabled {
        (false, RateAction::Reset)
    } else if play_state == Some(PlayState::Playing) && song_rate is Some {
        (true, forced_rate(song_rate->0, supported))
    } else {
        (true, RateAction::Nothing)
    }
}

/// Turns bit-perfect mode on or off (see `toggle_spec`).
pub fn toggle_bit_perfect(
    enabled: bool,
    available: bool,
    play_state: Option<PlayState>,
    song_rate: Option<u32>,
    supported: &Option<Vec<u32>>,
) -> (r: (bool, RateAction))
    ensures
        r == toggle_spec(enabled, available, play_state, song_rate, rates_view(*supported)),
{
    if !available {
        return (enabled, RateAction::Nothing);
    }
    if enabled {
        (false, RateAction::Reset)
    } else {
        (true, startup_rate(true, play_state, song_rate, supported))
    }
}

/// Toggling bit-perfect mode twice gives back the mode it had; when it
/// ends off, the server was last asked to choose its rate again.
pub proof fn lemma_toggle_twice(
    enabled: bool,
    available: bool,
    play_state: Option<PlayState>,
    song_rate: Option<u32>,
    supported: Option<Seq<u32>>,
)
    ensures
        ({
            let first = toggle_spec(enabled, available, play_state, song_rate, supported);
            let second = toggle_spec(first.0, available, play_state, song_rate, supported);
            &&& second.0 == enabled
            &&& available && !enabled ==> second.1 == RateAction::Reset
        }),
{
}

/// Where a key action goes.
#[derive(Debug, Clone, Copy, PartialEq, Eq, Structural)]
pub enum KeyRoute {
    /// Leave the program (saving the bit-perfect setting).
    Quit,
    /// Turn bit-perfect mode on or off (see `toggle_bit_perfect`).
    ToggleBitPerfect,
    /// Handle it as a navigation or server action.
    Navigate(MPDAction),
    /// Nothing to do.
    Ignore,
}

/// What a bound key leads to, and whether the status is to be fetched at
/// once afterwards.
#[derive(Debug, Clone, Copy, PartialEq, Eq, Structural)]
pub struct KeyPlan {
    pub route: KeyRoute,
    pub force_update: bool,
}

/// The route of an action: next and previous song only with a queue that
/// is not empty.
pub open spec fn route_spec(action: MPDAction, queue_len: usize) -> KeyRoute {
    match action {
        MPDAction::Quit => KeyRoute::Quit,
        MPDAction::ToggleBitPerfect => KeyRoute::ToggleBitPerfect,
        MPDAction::Next | MPDAction::Previous => if queue_len > 0 {
            KeyRoute::Navigate(action)
        } else {
            KeyRoute::Ignore
        },
        _ => KeyRoute::Navigate(action),
    }
}

/// What the action of a pressed key leads to, with a queue of `queue_len`
/// songs.
pub fn plan_key_action(action: MPDAction, queue_len: usize) -> (r: KeyPlan)
    ensures
        r == (KeyPlan { route: route_spec(action, queue_len), force_update: changes_player(action) }),
{
    let route = match action {
        MPDAction::Quit => KeyRoute::Quit,
        MPDAction::ToggleBitPerfect => KeyRoute::ToggleBitPerfect,
        MPDAction::Next | MPDAction::Previous => if queue_len > 0 {
            KeyRoute::Navigate(action)
        } else {
            KeyRoute::Ignore
        },
        _ => KeyRoute::Navigate(action),
    };
    KeyPlan { route, force_update: action.needs_update() }
}

/// What follows when the current song may have changed.
#[derive(Debug, Clone, Copy, PartialEq, Eq, Structural)]
pub struct SongChange {
    /// The song's file differs from the one shown: load its cover art and
    /// prefetch the neighbours' in the queue.
    pub changed: bool,
    /// No song is playing any more: the cover art is cleared.
    pub clear_image: bool,
}

/// Compares the file of the song shown with that of the current song.
pub fn song_change(shown_file: &Option<String>, current: &Option<SongInfo>) -> (r: SongChange)
    ensures
        r.changed == (name_view(*shown_file) != match current {
            Some(s) => Some(s.file_path@),
            None => None::<Seq<char>>,
        }),
        r.clear_image == (r.changed && current is None),
{
    let changed = match (shown_file, current) {
        (Some(f), Some(s)) => !str_eq(f.as_str(), s.file_path.as_str()),
        (None, None) => false,
        _ => true,
    };
    SongChange { changed, clear_image: changed && current.is_none() }
}

/// Records what the status says of the current song: its play state and
/// times, in milliseconds.
pub fn apply_status(
    song: &mut Option<SongInfo>,
    play_state: PlayState,
    elapsed_ms: Option<u64>,
    duration_ms: Option<u64>,
)
    ensures
        *final(song) == match *old(song) {
            Some(s) => Some(
                SongInfo { play_state: Some(play_state), elapsed_ms, duration_ms, ..s },
            ),
            None => None,
        },
{
    match song {
        Some(s) => {
            s.update_playback_info(Some(play_state));
            s.update_time_info(elapsed_ms, duration_ms);
        },
        None => {},
    }
}

} // verus!
