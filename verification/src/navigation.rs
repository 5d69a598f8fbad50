//! Moving through the queue and the library: what each navigation action
//! selects, and what the application must then do.

use vstd::prelude::*;
use crate::actions::MPDAction;
use crate::dirty::{DirtyFlags, DirtyState};
use crate::menu::{MenuMode, PanelFocus};

verus! {

/// The selections and view of the interface.
pub struct NavState {
    pub menu_mode: MenuMode,
    pub panel_focus: PanelFocus,
    /// The focus the artists view had when it was left.
    pub artists_panel_focus: PanelFocus,
    /// The focus the albums view had when it was left.
    pub albums_panel_focus: PanelFocus,
    /// The selected row of the queue list.
    pub queue_selected: Option<usize>,
    /// The selected queue index the rest of the application reads.
    pub selected_queue_index: Option<usize>,
    pub artist_selected: Option<usize>,
    /// The selected album of the artist, counted among albums only.
    pub album_selected: Option<usize>,
    /// The selected row of the artist's album list, songs of expanded albums included.
    pub album_display_selected: Option<usize>,
    pub all_albums_selected: Option<usize>,
    pub album_tracks_selected: Option<usize>,
    pub dirty: DirtyFlags,
}

/// The selections and view as plain values.
pub struct NavView {
    pub menu_mode: MenuMode,
    pub panel_focus: PanelFocus,
    pub artists_panel_focus: PanelFocus,
    pub albums_panel_focus: PanelFocus,
    pub queue_selected: Option<usize>,
    pub selected_queue_index: Option<usize>,
    pub artist_selected: Option<usize>,
    pub album_selected: Option<usize>,
    pub album_display_selected: Option<usize>,
    pub all_albums_selected: Option<usize>,
    pub album_tracks_selected: Option<usize>,
    pub dirty: DirtyState,
}

impl View for NavState {
    type V = NavView;

    open spec fn view(&self) -> NavView {
        NavView {
            menu_mode: self.menu_mode,
            panel_focus: self.panel_focus,
            artists_panel_focus: self.artists_panel_focus,
            albums_panel_focus: self.albums_panel_focus,
            queue_selected: self.queue_selected,
            selected_queue_index: self.selected_queue_index,
            artist_selected: self.artist_selected,
            album_selected: self.album_selected,
            album_display_selected: self.album_display_selected,
            all_albums_selected: self.all_albums_selected,
            album_tracks_selected: self.album_tracks_selected,
            dirty: self.dirty@,
        }
    }
}

/// The lengths of the lists the selections move in, read from the queue and
/// the library before the action.
pub struct ListSizes {
    pub queue_len: usize,
    /// The number of artists; `None` when no library is loaded.
    pub artists_len: Option<usize>,
    /// For the selected artist, whether each row of its album list is an
    /// album (`true`) or a song of an expanded album; `None` when there is
    /// no library or no such artist.
    pub artist_rows: Option<Vec<bool>>,
    /// The number of albums of the selected artist, when there is one.
    pub artist_album_count: Option<usize>,
    /// The number of albums of the albums view; `None` without a library.
    pub all_albums_len: Option<usize>,
    /// The number of tracks of the selected album of the albums view, when
    /// there is one.
    pub album_tracks_len: Option<usize>,
}

/// What the application must do after a navigation action.
#[derive(Debug, Clone, Copy, PartialEq, Eq, Structural)]
pub enum NavEffect {
    Nothing,
    /// Play the song at this queue position.
    PlayQueuePosition(usize),
    /// Move a song of the queue; on success call `after_queue_move`.
    MoveInQueue(usize, usize),
    /// Delete a song of the queue; on success call `after_queue_delete`.
    DeleteFromQueue(usize),
    /// Start a database update.
    UpdateDatabase,
    /// Load all albums for the albums view (then call `after_albums_preload`).
    PreloadAlbums,
    /// Load the albums of the artist at this index.
    LoadArtist(usize),
    /// Add the selected track of the albums view to the queue.
    AddSongInAlbumView,
    /// Add the selected album of the albums view to the queue.
    AddAlbumInAlbumView,
    /// Expand or fold the selected album, or add the selected song.
    ToggleAlbum,
    /// Add the selected album or song of the artists view to the queue.
    AddToQueueContextAware,
    /// Send the action's command to the server.
    Execute(MPDAction),
}

/// The index a selection starts from: the selected one, else the first.
pub open spec fn current(sel: Option<usize>) -> int {
    match sel {
        Some(i) => i as int,
        None => 0,
    }
}

/// The last index of a list of `len` items (0 when it is empty).
pub open spec fn last_index(len: int) -> int {
    if len > 0 {
        len - 1
    } else {
        0
    }
}

/// One row up, wrapping from the top to the bottom.
pub open spec fn wrap_up(sel: Option<usize>, len: int) -> int {
    if current(sel) > 0 {
        current(sel) - 1
    } else {
        last_index(len)
    }
}

/// One row down, wrapping from the bottom to the top.
pub open spec fn wrap_down(sel: Option<usize>, len: int) -> int {
    if current(sel) < last_index(len) {
        current(sel) + 1
    } else {
        0
    }
}

/// Fifteen rows up, stopping at the top; from the top, to the bottom.
pub open spec fn scroll_up_to(sel: Option<usize>, len: int) -> int {
    let c = current(sel);
    let p = if c >= 15 {
        c - 15
    } else {
        0
    };
    if p == 0 && c == 0 {
        last_index(len)
    } else {
        p
    }
}

/// Fifteen rows down, stopping at the bottom; from the bottom, to the top.
pub open spec fn scroll_down_to(sel: Option<usize>, len: int) -> int {
    let c = current(sel);
    let last = last_index(len);
    let p = if c + 15 < last {
        c + 15
    } else {
        last
    };
    if p == last && c == last {
        0
    } else {
        p
    }
}

/// The number of albums among the first `n` rows.
pub open spec fn albums_before(rows: Seq<bool>, n: int) -> nat
    decreases n,
{
    if n <= 0 || rows.len() == 0 {
        0
    } else if n > rows.len() {
        albums_before(rows, rows.len() as int)
    } else {
        albums_before(rows, n - 1) + (if rows[n - 1] {
            1nat
        } else {
            0nat
        })
    }
}

/// The album selection after moving to row `row`: its index among the
/// albums when the row is an album, else unchanged.
pub open spec fn album_after(rows: Seq<bool>, row: int, album: Option<usize>) -> Option<usize> {
    if 0 <= row < rows.len() && rows[row] {
        Some(albums_before(rows, row) as usize)
    } else {
        album
    }
}

fn last_of(len: usize) -> (r: usize)
    ensures
        r == last_index(len as int),
{
    if len > 0 {
        len - 1
    } else {
        0
    }
}

fn cur(sel: Option<usize>) -> (r: usize)
    ensures
        r == current(sel),
{
    match sel {
        Some(i) => i,
        None => 0,
    }
}

/// The row one up, wrapping around.
pub fn wrap_up_index(sel: Option<usize>, len: usize) -> (r: usize)
    ensures
        r == wrap_up(sel, len as int),
{
    let c = cur(sel);
    if c > 0 {
        c - 1
    } else {
        last_of(len)
    }
}

/// The row one down, wrapping around.
pub fn wrap_down_index(sel: Option<usize>, len: usize) -> (r: usize)
    requires
        current(sel) < usize::MAX,
    ensures
        r == wrap_down(sel, len as int),
{
    let c = cur(sel);
    if c < last_of(len) {
        c + 1
    } else {
        0
    }
}

/// The row fifteen up, as `scroll_up_to` says.
pub fn scroll_up_index(sel: Option<usize>, len: usize) -> (r: usize)
    ensures
        r == scroll_up_to(sel, len as int),
{
    let c = cur(sel);
    let p = if c >= 15 {
        c - 15
    } else {
        0
    };
    if p == 0 && c == 0 {
        last_of(len)
    } else {
        p
    }
}

/// The row fifteen down, as `scroll_down_to` says.
pub fn scroll_down_index(sel: Option<usize>, len: usize) -> (r: usize)
    requires
        current(sel) + 15 <= usize::MAX,
    ensures
        r == scroll_down_to(sel, len as int),
{
    let c = cur(sel);
    let last = last_of(len);
    let p = if c + 15 < last {
        c + 15
    } else {
        last
    };
    if p == last && c == last {
        0
    } else {
        p
    }
}

/// The album selection after moving to a row of the artist's album list.
pub fn album_index_at(rows: &Vec<bool>, row: usize, album: Option<usize>) -> (r: Option<usize>)
    ensures
        r == album_after(rows@, row as int, album),
{
    if row >= rows.len() || !rows[row] {
        return album;
    }
    let mut count: usize = 0;
    let mut i: usize = 0;
    while i < row
        invariant
            i <= row < rows@.len(),
            count == albums_before(rows@, i as int),
            count <= i,
        decreases row - i,
    {
        if rows[i] {
            count = count + 1;
        }
        i = i + 1;
    }
    Some(count)
}

/// Selections stay far from the top of `usize` (moving past them would overflow).
pub open spec fn selections_bounded(v: NavView) -> bool {
    &&& current(v.queue_selected) + 15 <= usize::MAX
    &&& current(v.artist_selected) + 15 <= usize::MAX
    &&& current(v.album_display_selected) + 15 <= usize::MAX
    &&& current(v.all_albums_selected) + 15 <= usize::MAX
    &&& current(v.album_tracks_selected) + 15 <= usize::MAX
}

/// The rows of the selected artist's album list, when known.
pub open spec fn rows_of(s: &ListSizes) -> Option<Seq<bool>> {
    match s.artist_rows {
        Some(v) => Some(v@),
        None => None,
    }
}

/// An artist row was chosen: select it, clear the album selections, and
/// load that artist's albums.
pub open spec fn choose_artist(v: NavView, row: int) -> (NavView, NavEffect) {
    (
        NavView {
            artist_selected: Some(row as usize),
            album_selected: None,
            album_display_selected: None,
            ..v
        },
        NavEffect::LoadArtist(row as usize),
    )
}

/// Row `row` of the artist's album list was chosen; the album selection
/// follows row `album_row` when that row is an album.
pub open spec fn choose_album_row(v: NavView, rows: Seq<bool>, row: int, album_row: int) -> NavView {
    NavView {
        album_display_selected: Some(row as usize),
        album_selected: album_after(rows, album_row, v.album_selected),
        ..v
    }
}

/// Moving one row up or down in the focused panel of a library view; the
/// library panels are then marked dirty.
pub open spec fn panel_step(v: NavView, up: bool, s: &ListSizes) -> (NavView, NavEffect) {
    let (w, e) = match v.menu_mode {
        MenuMode::Queue => (v, NavEffect::Nothing),
        MenuMode::Artists => match v.panel_focus {
            PanelFocus::Artists => match s.artists_len {
                Some(n) if n > 0 => choose_artist(
                    v,
                    if up {
                        wrap_up(v.artist_selected, n as int)
                    } else {
                        wrap_down(v.artist_selected, n as int)
                    },
                ),
                _ => (v, NavEffect::Nothing),
            },
            PanelFocus::Albums => match (v.artist_selected, rows_of(s)) {
                (Some(_), Some(rows)) if rows.len() > 0 => {
                    let row = if up {
                        wrap_up(v.album_display_selected, rows.len() as int)
                    } else {
                        wrap_down(v.album_display_selected, rows.len() as int)
                    };
                    let album_row = if up {
                        row
                    } else {
                        current(v.album_display_selected) + 1
                    };
                    (choose_album_row(v, rows, row, album_row), NavEffect::Nothing)
                },
                _ => (v, NavEffect::Nothing),
            },
            _ => (NavView { panel_focus: PanelFocus::Artists, ..v }, NavEffect::Nothing),
        },
        MenuMode::Albums => match v.panel_focus {
            PanelFocus::AlbumList => match s.all_albums_len {
                Some(n) if n > 0 => (
                    NavView {
                        all_albums_selected: Some(
                            (if up {
                                wrap_up(v.all_albums_selected, n as int)
                            } else {
                                wrap_down(v.all_albums_selected, n as int)
                            }) as usize,
                        ),
                        album_tracks_selected: Some(0),
                        ..v
                    },
                    NavEffect::Nothing,
                ),
                _ => (v, NavEffect::Nothing),
            },
            PanelFocus::AlbumTracks => match (v.all_albums_selected, s.album_tracks_len) {
                (Some(_), Some(n)) if n > 0 => (
                    NavView {
                        album_tracks_selected: Some(
                            (if up {
                                wrap_up(v.album_tracks_selected, n as int)
                            } else {
                                wrap_down(v.album_tracks_selected, n as int)
                            }) as usize,
                        ),
                        ..v
                    },
                    NavEffect::Nothing,
                ),
                _ => (v, NavEffect::Nothing),
            },
            _ => (NavView { panel_focus: PanelFocus::AlbumList, ..v }, NavEffect::Nothing),
        },
    };
    (NavView { dirty: DirtyState { library: true, ..w.dirty }, ..w }, e)
}

/// A jump of the focused list: fifteen rows (`scroll`) or to an edge.
#[derive(Debug, Clone, Copy, PartialEq, Eq, Structural)]
pub enum Jump {
    ScrollUp,
    ScrollDown,
    Top,
    Bottom,
}

/// The row a jump lands on in a list of `len` rows.
pub open spec fn jump_to(j: Jump, sel: Option<usize>, len: int) -> int {
    match j {
        Jump::ScrollUp => scroll_up_to(sel, len),
        Jump::ScrollDown => scroll_down_to(sel, len),
        Jump::Top => 0,
        Jump::Bottom => last_index(len),
    }
}

/// A jump in the focused list; then the queue selection or the library
/// panels are marked dirty.
pub open spec fn jump_step(v: NavView, j: Jump, s: &ListSizes) -> (NavView, NavEffect) {
    let (w, e) = match v.menu_mode {
        MenuMode::Queue => if s.queue_len > 0 {
            let row = jump_to(j, v.queue_selected, s.queue_len as int);
            (
                NavView {
                    queue_selected: Some(row as usize),
                    selected_queue_index: Some(row as usize),
                    ..v
                },
                NavEffect::Nothing,
            )
        } else {
            (v, NavEffect::Nothing)
        },
        MenuMode::Artists => match v.panel_focus {
            PanelFocus::Artists => match s.artists_len {
                Some(n) if n > 0 => choose_artist(v, jump_to(j, v.artist_selected, n as int)),
                _ => (v, NavEffect::Nothing),
            },
            PanelFocus::Albums => match (v.artist_selected, rows_of(s)) {
                (Some(_), Some(rows)) if rows.len() > 0 => {
                    let row = jump_to(j, v.album_display_selected, rows.len() as int);
                    (choose_album_row(v, rows, row, row), NavEffect::Nothing)
                },
                _ => (v, NavEffect::Nothing),
            },
            _ => (v, NavEffect::Nothing),
        },
        MenuMode::Albums => match v.panel_focus {
            PanelFocus::AlbumList => match s.all_albums_len {
                Some(n) if n > 0 => (
                    NavView {
                        all_albums_selected: Some(jump_to(j, v.all_albums_selected, n as int) as usize),
                        album_tracks_selected: Some(0),
                        ..v
                    },
                    NavEffect::Nothing,
                ),
                _ => (v, NavEffect::Nothing),
            },
            PanelFocus::AlbumTracks => match (v.all_albums_selected, s.album_tracks_len) {
                (Some(_), Some(n)) if n > 0 => (
                    NavView {
                        album_tracks_selected: Some(
                            jump_to(j, v.album_tracks_selected, n as int) as usize,
                        ),
                        ..v
                    },
                    NavEffect::Nothing,
                ),
                _ => (v, NavEffect::Nothing),
            },
            _ => (v, NavEffect::Nothing),
        },
    };
    match w.menu_mode {
        MenuMode::Queue => (
            NavView { dirty: DirtyState { queue_selection: true, ..w.dirty }, ..w },
            e,
        ),
        _ => (NavView { dirty: DirtyState { library: true, ..w.dirty }, ..w }, e),
    }
}

impl NavState {
    /// The state the interface starts in: the queue view, nothing selected,
    /// the artists panel focused in the artists view and the album list in
    /// the albums view, and everything to draw.
    pub fn new() -> (r: Self)
        ensures
            r@.menu_mode == MenuMode::Queue,
            r@.panel_focus == PanelFocus::Artists,
            r@.artists_panel_focus == PanelFocus::Artists,
            r@.albums_panel_focus == PanelFocus::AlbumList,
            r@.queue_selected is None,
            r@.selected_queue_index is None,
            r@.artist_selected is None,
            r@.album_selected is None,
            r@.album_display_selected is None,
            r@.all_albums_selected is None,
            r@.album_tracks_selected is None,
            r@.dirty.all_set(),
    {
        NavState {
            menu_mode: MenuMode::Queue,
            panel_focus: PanelFocus::Artists,
            artists_panel_focus: PanelFocus::Artists,
            albums_panel_focus: PanelFocus::AlbumList,
            queue_selected: None,
            selected_queue_index: None,
            artist_selected: None,
            album_selected: None,
            album_display_selected: None,
            all_albums_selected: None,
            album_tracks_selected: None,
            dirty: DirtyFlags::new(),
        }
    }
}

/// Before the artist view is drawn: with the albums panel focused, no album
/// selected and an artist with albums shown, the first album is selected.
pub open spec fn first_album_if_focused(v: NavView, album_count: nat) -> NavView {
    if v.album_selected is None && v.panel_focus is Albums && album_count > 0 {
        NavView { album_selected: Some(0), ..v }
    } else {
        v
    }
}

impl NavState {
    /// Selects the first album of the shown artist, which has `album_count`
    /// albums, when the albums panel is focused and no album is selected.
    pub fn select_first_album_if_focused(&mut self, album_count: usize)
        ensures
            final(self)@ == first_album_if_focused(old(self)@, album_count as nat),
    {
        let focused = match self.panel_focus {
            PanelFocus::Albums => true,
            _ => false,
        };
        if self.album_selected.is_none() && focused && album_count > 0 {
            self.album_selected = Some(0);
        }
    }
}

impl NavState {
    fn choose_artist_row(&mut self, row: usize) -> (e: NavEffect)
        ensures
            (final(self)@, e) == choose_artist(old(self)@, row as int),
    {
        self.artist_selected = Some(row);
        self.album_selected = None;
        self.album_display_selected = None;
        NavEffect::LoadArtist(row)
    }

    fn choose_album_row(&mut self, rows: &Vec<bool>, row: usize, album_row: usize)
        ensures
            final(self)@ == choose_album_row(old(self)@, rows@, row as int, album_row as int),
    {
        self.album_display_selected = Some(row);
        self.album_selected = album_index_at(rows, album_row, self.album_selected);
    }

    /// Moves one row up (`up`) or down in the focused panel of a library view.
    ///
    /// In an artist's album list the album selection follows the new row
    /// when it is an album. Moving down looks at the row after the old one,
    /// so a wrap from the last row to the first leaves the album selection
    /// as it was, even when the first row is an album.
    pub fn handle_panel_navigation(&mut self, up: bool, sizes: &ListSizes) -> (e: NavEffect)
        requires
            selections_bounded(old(self)@),
        ensures
            (final(self)@, e) == panel_step(old(self)@, up, sizes),
    {
        let e = match self.menu_mode {
            MenuMode::Queue => NavEffect::Nothing,
            MenuMode::Artists => match self.panel_focus {
                PanelFocus::Artists => match sizes.artists_len {
                    Some(n) => {
                        if n > 0 {
                            let row = if up {
                                wrap_up_index(self.artist_selected, n)
                            } else {
                                wrap_down_index(self.artist_selected, n)
                            };
                            self.choose_artist_row(row)
                        } else {
                            NavEffect::Nothing
                        }
                    },
                    None => NavEffect::Nothing,
                },
                PanelFocus::Albums => {
                    match (self.artist_selected, &sizes.artist_rows) {
                        (Some(_), Some(rows)) => {
                            if rows.len() > 0 {
                                let row = if up {
                                    wrap_up_index(self.album_display_selected, rows.len())
                                } else {
                                    wrap_down_index(self.album_display_selected, rows.len())
                                };
                                let album_row = if up {
                                    row
                                } else {
                                    cur(self.album_display_selected) + 1
                                };
                                self.choose_album_row(rows, row, album_row);
                            }
                        },
                        _ => {},
                    }
                    NavEffect::Nothing
                },
                _ => {
                    self.panel_focus = PanelFocus::Artists;
                    NavEffect::Nothing
                },
            },
            MenuMode::Albums => match self.panel_focus {
                PanelFocus::AlbumList => {
                    match sizes.all_albums_len {
                        Some(n) => {
                            if n > 0 {
                                let row = if up {
                                    wrap_up_index(self.all_albums_selected, n)
                                } else {
                                    wrap_down_index(self.all_albums_selected, n)
                                };
                                self.all_albums_selected = Some(row);
                                self.album_tracks_selected = Some(0);
                            }
                        },
                        None => {},
                    }
                    NavEffect::Nothing
                },
                PanelFocus::AlbumTracks => {
                    match (self.all_albums_selected, sizes.album_tracks_len) {
                        (Some(_), Some(n)) => {
                            if n > 0 {
                                let row = if up {
                                    wrap_up_index(self.album_tracks_selected, n)
                                } else {
                                    wrap_down_index(self.album_tracks_selected, n)
                                };
                                self.album_tracks_selected = Some(row);
                            }
                        },
                        _ => {},
                    }
                    NavEffect::Nothing
                },
                _ => {
                    self.panel_focus = PanelFocus::AlbumList;
                    NavEffect::Nothing
                },
            },
        };
        self.dirty.mark_library();
        e
    }

    /// Jumps fifteen rows or to an edge of the focused list.
    pub fn jump(&mut self, j: Jump, sizes: &ListSizes) -> (e: NavEffect)
        requires
            selections_bounded(old(self)@),
        ensures
            (final(self)@, e) == jump_step(old(self)@, j, sizes),
    {
        let e = match self.menu_mode {
            MenuMode::Queue => {
                if sizes.queue_len > 0 {
                    let row = jump_index(&j, self.queue_selected, sizes.queue_len);
                    self.queue_selected = Some(row);
                    self.selected_queue_index = Some(row);
                }
                NavEffect::Nothing
            },
            MenuMode::Artists => match self.panel_focus {
                PanelFocus::Artists => match sizes.artists_len {
                    Some(n) => {
                        if n > 0 {
                            let row = jump_index(&j, self.artist_selected, n);
                            self.choose_artist_row(row)
                        } else {
                            NavEffect::Nothing
                        }
                    },
                    None => NavEffect::Nothing,
                },
                PanelFocus::Albums => {
                    match (self.artist_selected, &sizes.artist_rows) {
                        (Some(_), Some(rows)) => {
                            if rows.len() > 0 {
                                let row = jump_index(&j, self.album_display_selected, rows.len());
                                self.choose_album_row(rows, row, row);
                            }
                        },
                        _ => {},
                    }
                    NavEffect::Nothing
                },
                _ => NavEffect::Nothing,
            },
            MenuMode::Albums => match self.panel_focus {
                PanelFocus::AlbumList => {
                    match sizes.all_albums_len {
                        Some(n) => {
                            if n > 0 {
                                let row = jump_index(&j, self.all_albums_selected, n);
                                self.all_albums_selected = Some(row);
                                self.album_tracks_selected = Some(0);
                            }
                        },
                        None => {},
                    }
                    NavEffect::Nothing
                },
                PanelFocus::AlbumTracks => {
                    match (self.all_albums_selected, sizes.album_tracks_len) {
                        (Some(_), Some(n)) => {
                            if n > 0 {
                                let row = jump_index(&j, self.album_tracks_selected, n);
                                self.album_tracks_selected = Some(row);
                            }
                        },
                        _ => {},
                    }
                    NavEffect::Nothing
                },
                _ => NavEffect::Nothing,
            },
        };
        match self.menu_mode {
            MenuMode::Queue => self.dirty.mark_queue_selection(),
            _ => self.dirty.mark_library(),
        }
        e
    }

    /// Scrolls fifteen rows up or down in the focused list.
    pub fn handle_scroll(&mut self, action: MPDAction, sizes: &ListSizes) -> (e: NavEffect)
        requires
            selections_bounded(old(self)@),
            action == MPDAction::ScrollUp || action == MPDAction::ScrollDown,
        ensures
            (final(self)@, e) == jump_step(
                old(self)@,
                if action == MPDAction::ScrollUp {
                    Jump::ScrollUp
                } else {
                    Jump::ScrollDown
                },
                sizes,
            ),
    {
        if action == MPDAction::ScrollUp {
            self.jump(Jump::ScrollUp, sizes)
        } else {
            self.jump(Jump::ScrollDown, sizes)
        }
    }

    /// Jumps to the top or the bottom of the focused list.
    pub fn handle_go_to_edge(&mut self, action: MPDAction, sizes: &ListSizes) -> (e: NavEffect)
        requires
            selections_bounded(old(self)@),
            action == MPDAction::GoToTop || action == MPDAction::GoToBottom,
        ensures
            (final(self)@, e) == jump_step(
                old(self)@,
                if action == MPDAction::GoToTop {
                    Jump::Top
                } else {
                    Jump::Bottom
                },
                sizes,
            ),
    {
        if action == MPDAction::GoToTop {
            self.jump(Jump::Top, sizes)
        } else {
            self.jump(Jump::Bottom, sizes)
        }
    }
}

fn jump_index(j: &Jump, sel: Option<usize>, len: usize) -> (r: usize)
    requires
        current(sel) + 15 <= usize::MAX,
        len > 0,
    ensures
        r == jump_to(*j, sel, len as int),
{
    match j {
        Jump::ScrollUp => scroll_up_index(sel, len),
        Jump::ScrollDown => scroll_down_index(sel, len),
        Jump::Top => 0,
        Jump::Bottom => last_of(len),
    }
}

/// The focus of the view being left is remembered for that view.
pub open spec fn save_focus(v: NavView) -> NavView {
    match v.menu_mode {
        MenuMode::Artists => NavView { artists_panel_focus: v.panel_focus, ..v },
        MenuMode::Albums => NavView { albums_panel_focus: v.panel_focus, ..v },
        MenuMode::Queue => v,
    }
}

/// The menu mode was changed.
pub open spec fn mark_menu(v: NavView) -> NavView {
    NavView { dirty: DirtyState { menu_mode: true, ..v.dirty }, ..v }
}

/// The panel focus was changed.
pub open spec fn mark_focus(v: NavView) -> NavView {
    NavView { dirty: DirtyState { panel_focus: true, ..v.dirty }, ..v }
}

/// A new queue row was selected.
pub open spec fn select_queue(v: NavView, row: int) -> NavView {
    NavView {
        queue_selected: Some(row as usize),
        selected_queue_index: Some(row as usize),
        dirty: DirtyState { queue_selection: true, ..v.dirty },
        ..v
    }
}

/// Moving the focus one panel to the right.
pub open spec fn panel_right(v: NavView, s: &ListSizes) -> NavView {
    match v.menu_mode {
        MenuMode::Artists => match v.panel_focus {
            PanelFocus::Artists => {
                let w = mark_focus(NavView { panel_focus: PanelFocus::Albums, ..v });
                match s.artist_album_count {
                    Some(count) => if v.album_display_selected is None {
                        NavView {
                            album_display_selected: Some(0),
                            album_selected: if count > 0 {
                                Some(0)
                            } else {
                                w.album_selected
                            },
                            ..w
                        }
                    } else {
                        w
                    },
                    None => w,
                }
            },
            PanelFocus::Albums => v,
            _ => mark_focus(NavView { panel_focus: PanelFocus::Artists, ..v }),
        },
        MenuMode::Albums => match v.panel_focus {
            PanelFocus::AlbumList => {
                let w = mark_focus(NavView { panel_focus: PanelFocus::AlbumTracks, ..v });
                if v.album_tracks_selected is None {
                    NavView { album_tracks_selected: Some(0), ..w }
                } else {
                    w
                }
            },
            _ => mark_focus(NavView { panel_focus: PanelFocus::AlbumList, ..v }),
        },
        MenuMode::Queue => v,
    }
}

/// Moving the focus one panel to the left.
pub open spec fn panel_left(v: NavView) -> NavView {
    match v.menu_mode {
        MenuMode::Artists => match v.panel_focus {
            PanelFocus::Artists => v,
            _ => mark_focus(NavView { panel_focus: PanelFocus::Artists, ..v }),
        },
        MenuMode::Albums => match v.panel_focus {
            PanelFocus::AlbumList => v,
            _ => mark_focus(NavView { panel_focus: PanelFocus::AlbumList, ..v }),
        },
        MenuMode::Queue => v,
    }
}

/// What a navigation action does to the selections, and what the
/// application must do after it.
pub open spec fn nav_step(v: NavView, a: MPDAction, s: &ListSizes) -> (NavView, NavEffect) {
    let qlen = s.queue_len as int;
    match a {
        MPDAction::QueueUp => if v.menu_mode == MenuMode::Queue && qlen > 0 {
            (select_queue(v, wrap_up(v.queue_selected, qlen)), NavEffect::Nothing)
        } else {
            (v, NavEffect::Nothing)
        },
        MPDAction::QueueDown => if v.menu_mode == MenuMode::Queue && qlen > 0 {
            (select_queue(v, wrap_down(v.queue_selected, qlen)), NavEffect::Nothing)
        } else {
            (v, NavEffect::Nothing)
        },
        MPDAction::PlaySelected => match v.menu_mode {
            MenuMode::Queue => match v.queue_selected {
                Some(sel) if sel < qlen => (v, NavEffect::PlayQueuePosition(sel)),
                _ => (v, NavEffect::Nothing),
            },
            MenuMode::Albums => (v, NavEffect::AddSongInAlbumView),
            MenuMode::Artists => (v, NavEffect::Nothing),
        },
        MPDAction::MoveUpInQueue => match v.queue_selected {
            Some(sel) if sel > 0 && sel < qlen => (
                v,
                NavEffect::MoveInQueue(sel, (sel - 1) as usize),
            ),
            _ => (v, NavEffect::Nothing),
        },
        MPDAction::MoveDownInQueue => match v.queue_selected {
            Some(sel) if sel < last_index(qlen) => (
                v,
                NavEffect::MoveInQueue(sel, (sel + 1) as usize),
            ),
            _ => (v, NavEffect::Nothing),
        },
        MPDAction::RemoveFromQueue => match v.queue_selected {
            Some(sel) if sel < qlen => (v, NavEffect::DeleteFromQueue(sel)),
            _ => (v, NavEffect::Nothing),
        },
        MPDAction::Refresh => (v, NavEffect::UpdateDatabase),
        MPDAction::SwitchToQueueMenu => (
            mark_menu(NavView { menu_mode: MenuMode::Queue, ..save_focus(v) }),
            NavEffect::Nothing,
        ),
        MPDAction::SwitchToArtists => {
            let w = if v.menu_mode == MenuMode::Albums {
                save_focus(v)
            } else {
                v
            };
            (
                mark_menu(
                    NavView {
                        menu_mode: MenuMode::Artists,
                        panel_focus: w.artists_panel_focus,
                        ..w
                    },
                ),
                NavEffect::Nothing,
            )
        },
        MPDAction::SwitchToAlbums => {
            let w = if v.menu_mode == MenuMode::Artists {
                save_focus(v)
            } else {
                v
            };
            (
                mark_menu(
                    NavView { menu_mode: MenuMode::Albums, panel_focus: w.albums_panel_focus, ..w },
                ),
                NavEffect::PreloadAlbums,
            )
        },
        MPDAction::SwitchPanelLeft => (panel_left(v), NavEffect::Nothing),
        MPDAction::SwitchPanelRight => (panel_right(v, s), NavEffect::Nothing),
        MPDAction::NavigateUp => panel_step(v, true, s),
        MPDAction::NavigateDown => panel_step(v, false, s),
        MPDAction::GoToTop => jump_step(v, Jump::Top, s),
        MPDAction::GoToBottom => jump_step(v, Jump::Bottom, s),
        MPDAction::ScrollUp => jump_step(v, Jump::ScrollUp, s),
        MPDAction::ScrollDown => jump_step(v, Jump::ScrollDown, s),
        MPDAction::ToggleAlbumExpansion => (v, NavEffect::ToggleAlbum),
        MPDAction::AddSongToQueue => match v.menu_mode {
            MenuMode::Albums => match v.panel_focus {
                PanelFocus::AlbumTracks => (v, NavEffect::AddSongInAlbumView),
                PanelFocus::AlbumList => (v, NavEffect::AddAlbumInAlbumView),
                _ => (v, NavEffect::Nothing),
            },
            MenuMode::Artists => (v, NavEffect::AddToQueueContextAware),
            MenuMode::Queue => (v, NavEffect::Nothing),
        },
        MPDAction::CycleModeLeft => {
            let w = save_focus(v);
            match v.menu_mode {
                MenuMode::Queue => (
                    mark_menu(
                        NavView {
                            menu_mode: MenuMode::Albums,
                            panel_focus: w.albums_panel_focus,
                            ..w
                        },
                    ),
                    NavEffect::PreloadAlbums,
                ),
                MenuMode::Artists => (
                    mark_menu(NavView { menu_mode: MenuMode::Queue, ..w }),
                    NavEffect::Nothing,
                ),
                MenuMode::Albums => (
                    mark_menu(
                        NavView {
                            menu_mode: MenuMode::Artists,
                            panel_focus: w.artists_panel_focus,
                            ..w
                        },
                    ),
                    NavEffect::Nothing,
                ),
            }
        },
        MPDAction::CycleModeRight => {
            let w = save_focus(v);
            match v.menu_mode {
                MenuMode::Queue => (
                    mark_menu(
                        NavView {
                            menu_mode: MenuMode::Artists,
                            panel_focus: w.artists_panel_focus,
                            ..w
                        },
                    ),
                    NavEffect::Nothing,
                ),
                MenuMode::Artists => (
                    mark_menu(
                        NavView {
                            menu_mode: MenuMode::Albums,
                            panel_focus: w.albums_panel_focus,
                            ..w
                        },
                    ),
                    NavEffect::PreloadAlbums,
                ),
                MenuMode::Albums => (
                    mark_menu(NavView { menu_mode: MenuMode::Queue, ..w }),
                    NavEffect::Nothing,
                ),
            }
        },
        _ => (v, NavEffect::Execute(a)),
    }
}

/// The queue selection after deleting the song at `selected` from a queue of
/// `len` songs: none when the queue is empty, the last row when the deleted
/// row was at or after it, else unchanged.
pub open spec fn selection_after_delete(sel: Option<usize>, selected: usize, len: usize) -> Option<
    usize,
> {
    if len == 0 {
        None
    } else if selected >= last_index(len as int) {
        Some(last_index(len as int) as usize)
    } else {
        sel
    }
}

impl NavState {
    fn save_focus(&mut self)
        ensures
            final(self)@ == save_focus(old(self)@),
    {
        match self.menu_mode {
            MenuMode::Artists => {
                self.artists_panel_focus = self.panel_focus;
            },
            MenuMode::Albums => {
                self.albums_panel_focus = self.panel_focus;
            },
            MenuMode::Queue => {},
        }
    }

    fn set_focus(&mut self, f: PanelFocus)
        ensures
            final(self)@ == mark_focus(NavView { panel_focus: f, ..old(self)@ }),
    {
        self.panel_focus = f;
        self.dirty.mark_panel_focus();
    }

    fn select_queue_row(&mut self, row: usize)
        ensures
            final(self)@ == select_queue(old(self)@, row as int),
    {
        self.queue_selected = Some(row);
        self.selected_queue_index = Some(row);
        self.dirty.mark_queue_selection();
    }

    fn switch_panel_right(&mut self, sizes: &ListSizes)
        ensures
            final(self)@ == panel_right(old(self)@, sizes),
    {
        match self.menu_mode {
            MenuMode::Artists => match self.panel_focus {
                PanelFocus::Artists => {
                    let had_row = self.album_display_selected.is_some();
                    self.set_focus(PanelFocus::Albums);
                    match sizes.artist_album_count {
                        Some(count) => {
                            if !had_row {
                                self.album_display_selected = Some(0);
                                if count > 0 {
                                    self.album_selected = Some(0);
                                }
                            }
                        },
                        None => {},
                    }
                },
                PanelFocus::Albums => {},
                _ => self.set_focus(PanelFocus::Artists),
            },
            MenuMode::Albums => match self.panel_focus {
                PanelFocus::AlbumList => {
                    let had_row = self.album_tracks_selected.is_some();
                    self.set_focus(PanelFocus::AlbumTracks);
                    if !had_row {
                        self.album_tracks_selected = Some(0);
                    }
                },
                _ => self.set_focus(PanelFocus::AlbumList),
            },
            MenuMode::Queue => {},
        }
    }

    fn switch_panel_left(&mut self)
        ensures
            final(self)@ == panel_left(old(self)@),
    {
        match self.menu_mode {
            MenuMode::Artists => match self.panel_focus {
                PanelFocus::Artists => {},
                _ => self.set_focus(PanelFocus::Artists),
            },
            MenuMode::Albums => match self.panel_focus {
                PanelFocus::AlbumList => {},
                _ => self.set_focus(PanelFocus::AlbumList),
            },
            MenuMode::Queue => {},
        }
    }

    fn enter_mode(&mut self, mode: MenuMode)
        ensures
            final(self)@ == mark_menu(
                NavView {
                    menu_mode: mode,
                    panel_focus: match mode {
                        MenuMode::Artists => old(self)@.artists_panel_focus,
                        MenuMode::Albums => old(self)@.albums_panel_focus,
                        MenuMode::Queue => old(self)@.panel_focus,
                    },
                    ..old(self)@
                },
            ),
    {
        self.menu_mode = mode;
        match mode {
            MenuMode::Artists => {
                self.panel_focus = self.artists_panel_focus;
            },
            MenuMode::Albums => {
                self.panel_focus = self.albums_panel_focus;
            },
            MenuMode::Queue => {},
        }
        self.dirty.mark_menu_mode();
    }

    /// Handles a navigation or interface action: updates the selections and
    /// says what the application must do next (send a command, load data).
    pub fn handle_navigation_action(&mut self, action: MPDAction, sizes: &ListSizes) -> (e: NavEffect)
        requires
            selections_bounded(old(self)@),
        ensures
            (final(self)@, e) == nav_step(old(self)@, action, sizes),
    {
        let qlen = sizes.queue_len;
        match action {
            MPDAction::QueueUp => {
                if self.menu_mode == MenuMode::Queue && qlen > 0 {
                    let row = wrap_up_index(self.queue_selected, qlen);
                    self.select_queue_row(row);
                }
                NavEffect::Nothing
            },
            MPDAction::QueueDown => {
                if self.menu_mode == MenuMode::Queue && qlen > 0 {
                    let row = wrap_down_index(self.queue_selected, qlen);
                    self.select_queue_row(row);
                }
                NavEffect::Nothing
            },
            MPDAction::PlaySelected => match self.menu_mode {
                MenuMode::Queue => match self.queue_selected {
                    Some(sel) => {
                        if sel < qlen {
                            NavEffect::PlayQueuePosition(sel)
                        } else {
                            NavEffect::Nothing
                        }
                    },
                    None => NavEffect::Nothing,
                },
                MenuMode::Albums => NavEffect::AddSongInAlbumView,
                MenuMode::Artists => NavEffect::Nothing,
            },
            MPDAction::MoveUpInQueue => match self.queue_selected {
                Some(sel) => {
                    if sel > 0 && sel < qlen {
                        NavEffect::MoveInQueue(sel, sel - 1)
                    } else {
                        NavEffect::Nothing
                    }
                },
                None => NavEffect::Nothing,
            },
            MPDAction::MoveDownInQueue => match self.queue_selected {
                Some(sel) => {
                    if sel < last_of(qlen) {
                        NavEffect::MoveInQueue(sel, sel + 1)
                    } else {
                        NavEffect::Nothing
                    }
                },
                None => NavEffect::Nothing,
            },
            MPDAction::RemoveFromQueue => match self.queue_selected {
                Some(sel) => {
                    if sel < qlen {
                        NavEffect::DeleteFromQueue(sel)
                    } else {
                        NavEffect::Nothing
                    }
                },
                None => NavEffect::Nothing,
            },
            MPDAction::Refresh => NavEffect::UpdateDatabase,
            MPDAction::SwitchToQueueMenu => {
                self.save_focus();
                self.enter_mode(MenuMode::Queue);
                NavEffect::Nothing
            },
            MPDAction::SwitchToArtists => {
                if self.menu_mode == MenuMode::Albums {
                    self.save_focus();
                }
                self.enter_mode(MenuMode::Artists);
                NavEffect::Nothing
            },
            MPDAction::SwitchToAlbums => {
                if self.menu_mode == MenuMode::Artists {
                    self.save_focus();
                }
                self.enter_mode(MenuMode::Albums);
                NavEffect::PreloadAlbums
            },
            MPDAction::SwitchPanelLeft => {
                self.switch_panel_left();
                NavEffect::Nothing
            },
            MPDAction::SwitchPanelRight => {
                self.switch_panel_right(sizes);
                NavEffect::Nothing
            },
            MPDAction::NavigateUp => self.handle_panel_navigation(true, sizes),
            MPDAction::NavigateDown => self.handle_panel_navigation(false, sizes),
            MPDAction::GoToTop => self.jump(Jump::Top, sizes),
            MPDAction::GoToBottom => self.jump(Jump::Bottom, sizes),
            MPDAction::ScrollUp => self.jump(Jump::ScrollUp, sizes),
            MPDAction::ScrollDown => self.jump(Jump::ScrollDown, sizes),
            MPDAction::ToggleAlbumExpansion => NavEffect::ToggleAlbum,
            MPDAction::AddSongToQueue => match self.menu_mode {
                MenuMode::Albums => match self.panel_focus {
                    PanelFocus::AlbumTracks => NavEffect::AddSongInAlbumView,
                    PanelFocus::AlbumList => NavEffect::AddAlbumInAlbumView,
                    _ => NavEffect::Nothing,
                },
                MenuMode::Artists => NavEffect::AddToQueueContextAware,
                MenuMode::Queue => NavEffect::Nothing,
            },
            MPDAction::CycleModeLeft => {
                let from = self.menu_mode;
                self.save_focus();
                match from {
                    MenuMode::Queue => {
                        self.enter_mode(MenuMode::Albums);
                        NavEffect::PreloadAlbums
                    },
                    MenuMode::Artists => {
                        self.enter_mode(MenuMode::Queue);
                        NavEffect::Nothing
                    },
                    MenuMode::Albums => {
                        self.enter_mode(MenuMode::Artists);
                        NavEffect::Nothing
                    },
                }
            },
            MPDAction::CycleModeRight => {
                let from = self.menu_mode;
                self.save_focus();
                match from {
                    MenuMode::Queue => {
                        self.enter_mode(MenuMode::Artists);
                        NavEffect::Nothing
                    },
                    MenuMode::Artists => {
                        self.enter_mode(MenuMode::Albums);
                        NavEffect::PreloadAlbums
                    },
                    MenuMode::Albums => {
                        self.enter_mode(MenuMode::Queue);
                        NavEffect::Nothing
                    },
                }
            },
            _ => NavEffect::Execute(action),
        }
    }

    /// After a song of the queue moved to `to`: the selection follows it.
    pub fn after_queue_move(&mut self, to: usize)
        ensures
            final(self)@ == (NavView {
                queue_selected: Some(to),
                selected_queue_index: Some(to),
                dirty: DirtyState { queue: true, ..old(self)@.dirty },
                ..old(self)@
            }),
    {
        self.queue_selected = Some(to);
        self.selected_queue_index = Some(to);
        self.dirty.mark_queue();
    }

    /// After the song at `selected` was deleted from a queue that had
    /// `queue_len` songs before the queue is read again: the selection
    /// stays within the queue.
    pub fn after_queue_delete(&mut self, selected: usize, queue_len: usize)
        ensures
            final(self)@ == (NavView {
                queue_selected: selection_after_delete(old(self)@.queue_selected, selected, queue_len),
                selected_queue_index: selection_after_delete(
                    old(self)@.queue_selected,
                    selected,
                    queue_len,
                ),
                dirty: DirtyState { queue: true, ..old(self)@.dirty },
                ..old(self)@
            }),
    {
        let sel = if queue_len == 0 {
            None
        } else if selected >= last_of(queue_len) {
            Some(last_of(queue_len))
        } else {
            self.queue_selected
        };
        self.queue_selected = sel;
        self.selected_queue_index = sel;
        self.dirty.mark_queue();
    }

    /// After the albums view was loaded: the first album is selected when
    /// there are albums and none is selected.
    pub fn after_albums_preload(&mut self, all_albums_len: Option<usize>)
        ensures
            final(self)@ == (match all_albums_len {
                Some(n) if n > 0 && old(self)@.all_albums_selected is None => NavView {
                    all_albums_selected: Some(0),
                    ..old(self)@
                },
                _ => old(self)@,
            }),
    {
        match all_albums_len {
            Some(n) => {
                if n > 0 && self.all_albums_selected.is_none() {
                    self.all_albums_selected = Some(0);
                }
            },
            None => {},
        }
    }
}

/// Moving up and then down in a list, or down and then up, comes back to
/// the row where it started.
pub proof fn lemma_wrap_up_down_inverse(i: usize, len: usize)
    requires
        i < len,
        len < usize::MAX,
    ensures
        wrap_down(Some(wrap_up(Some(i), len as int) as usize), len as int) == i,
        wrap_up(Some(wrap_down(Some(i), len as int) as usize), len as int) == i,
{
}

/// Moving in a list that is not empty lands inside it when the selection was.
pub proof fn lemma_moves_stay_in_list(sel: Option<usize>, len: int, j: Jump)
    requires
        len > 0,
        current(sel) < len,
    ensures
        0 <= wrap_up(sel, len) < len,
        0 <= wrap_down(sel, len) < len,
        0 <= jump_to(j, sel, len) < len,
{
}

/// Cycling the view right and then left (or left and then right) comes back
/// to the same view; from a library view, with the same focused panel.
pub proof fn lemma_cycle_right_left(v: NavView, s: &ListSizes)
    ensures
        nav_step(nav_step(v, MPDAction::CycleModeRight, s).0, MPDAction::CycleModeLeft, s).0.menu_mode
            == v.menu_mode,
        nav_step(nav_step(v, MPDAction::CycleModeLeft, s).0, MPDAction::CycleModeRight, s).0.menu_mode
            == v.menu_mode,
        v.menu_mode != MenuMode::Queue ==> nav_step(
            nav_step(v, MPDAction::CycleModeRight, s).0,
            MPDAction::CycleModeLeft,
            s,
        ).0.panel_focus == v.panel_focus,
        v.menu_mode != MenuMode::Queue ==> nav_step(
            nav_step(v, MPDAction::CycleModeLeft, s).0,
            MPDAction::CycleModeRight,
            s,
        ).0.panel_focus == v.panel_focus,
{
}

/// In the artists panel of the artists view, moving down selects the next
/// artist (the first after the last) and moving up the previous one (the
/// last before the first); the chosen artist is loaded and its album
/// selections are dropped.
pub proof fn lemma_artist_moves(v: NavView, s: &ListSizes, i: usize, n: usize)
    requires
        v.menu_mode == MenuMode::Artists,
        v.panel_focus == PanelFocus::Artists,
        s.artists_len == Some(n),
        v.artist_selected == Some(i),
        i < n,
    ensures
        ({
            let down = if i + 1 < n { (i + 1) as usize } else { 0usize };
            let (w, e) = nav_step(v, MPDAction::NavigateDown, s);
            &&& w.artist_selected == Some(down)
            &&& e == NavEffect::LoadArtist(down)
            &&& w.album_selected is None
            &&& w.album_display_selected is None
        }),
        ({
            let up = if i > 0 { (i - 1) as usize } else { (n - 1) as usize };
            let (w, e) = nav_step(v, MPDAction::NavigateUp, s);
            &&& w.artist_selected == Some(up)
            &&& e == NavEffect::LoadArtist(up)
        }),
        n > 2 ==> nav_step(v, MPDAction::NavigateDown, s).0.artist_selected != nav_step(
            v,
            MPDAction::NavigateUp,
            s,
        ).0.artist_selected,
{
}

/// In the album list of the albums view, moving down selects the next
/// album (the first after the last), moving up the previous one (the last
/// before the first), and either starts its tracks at the top.
pub proof fn lemma_album_list_moves(v: NavView, s: &ListSizes, i: usize, n: usize)
    requires
        v.menu_mode == MenuMode::Albums,
        v.panel_focus == PanelFocus::AlbumList,
        s.all_albums_len == Some(n),
        v.all_albums_selected == Some(i),
        i < n,
    ensures
        nav_step(v, MPDAction::NavigateDown, s).0.all_albums_selected == Some(
            if i + 1 < n { (i + 1) as usize } else { 0usize },
        ),
        nav_step(v, MPDAction::NavigateUp, s).0.all_albums_selected == Some(
            if i > 0 { (i - 1) as usize } else { (n - 1) as usize },
        ),
        nav_step(v, MPDAction::NavigateDown, s).0.album_tracks_selected == Some(0usize),
{
}

} // verus!
