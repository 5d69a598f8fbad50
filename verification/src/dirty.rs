//! Tracking of which screen regions must be rebuilt before the next frame.

use vstd::prelude::*;

verus! {

/// The abstract state of a set of dirty flags.
pub struct DirtyState {
    pub queue: bool,
    pub queue_selection: bool,
    pub current_song: bool,
    pub status: bool,
    pub progress: bool,
    pub cover_art: bool,
    pub library: bool,
    pub menu_mode: bool,
    pub panel_focus: bool,
    pub terminal_size: bool,
    pub force_full: bool,
    pub last_width: u16,
    pub last_height: u16,
}

impl DirtyState {
    /// Flags that force every region to be rebuilt.
    pub open spec fn forced(self) -> bool {
        self.force_full || self.terminal_size
    }

    pub open spec fn queue_dirty(self) -> bool {
        self.forced() || self.queue
    }

    pub open spec fn queue_selection_dirty(self) -> bool {
        self.forced() || self.queue || self.queue_selection
    }

    pub open spec fn current_song_dirty(self) -> bool {
        self.forced() || self.current_song
    }

    pub open spec fn status_dirty(self) -> bool {
        self.forced() || self.status || self.menu_mode
    }

    pub open spec fn progress_dirty(self) -> bool {
        self.forced() || self.progress || self.status
    }

    pub open spec fn cover_art_dirty(self) -> bool {
        self.forced() || self.cover_art
    }

    pub open spec fn library_dirty(self) -> bool {
        self.forced() || self.library || self.panel_focus
    }

    pub open spec fn any(self) -> bool {
        self.forced() || self.queue || self.queue_selection || self.current_song || self.status
            || self.progress || self.cover_art || self.library || self.menu_mode
            || self.panel_focus
    }

    pub open spec fn full_redraw(self) -> bool {
        self.forced() || self.menu_mode
    }

    /// No region flag is set (the remembered terminal size is not a flag).
    pub open spec fn all_clear(self) -> bool {
        !self.queue && !self.queue_selection && !self.current_song && !self.status
            && !self.progress && !self.cover_art && !self.library && !self.menu_mode
            && !self.panel_focus && !self.terminal_size && !self.force_full
    }

    /// Every region flag is set.
    pub open spec fn all_set(self) -> bool {
        self.queue && self.queue_selection && self.current_song && self.status && self.progress
            && self.cover_art && self.library && self.menu_mode && self.panel_focus
            && self.terminal_size && self.force_full
    }
}

/// A call that changes a set of dirty flags.
pub enum DirtyOp {
    MarkQueue,
    MarkQueueSelection,
    MarkCurrentSong,
    MarkStatus,
    MarkProgress,
    MarkCoverArt,
    MarkLibrary,
    MarkMenuMode,
    MarkPanelFocus,
    MarkFullRedraw,
    CheckTerminalSize(u16, u16),
    ClearAll,
    ClearProgress,
}

/// The flags after one call.
pub open spec fn op_step(s: DirtyState, op: DirtyOp) -> DirtyState {
    match op {
        DirtyOp::MarkQueue => DirtyState { queue: true, ..s },
        DirtyOp::MarkQueueSelection => DirtyState { queue_selection: true, ..s },
        DirtyOp::MarkCurrentSong => DirtyState { current_song: true, ..s },
        DirtyOp::MarkStatus => DirtyState { status: true, ..s },
        DirtyOp::MarkProgress => DirtyState { progress: true, ..s },
        DirtyOp::MarkCoverArt => DirtyState { cover_art: true, ..s },
        DirtyOp::MarkLibrary => DirtyState { library: true, ..s },
        DirtyOp::MarkMenuMode => DirtyState { menu_mode: true, ..s },
        DirtyOp::MarkPanelFocus => DirtyState { panel_focus: true, ..s },
        DirtyOp::MarkFullRedraw => DirtyState { force_full: true, ..s },
        DirtyOp::CheckTerminalSize(w, h) => if w != s.last_width || h != s.last_height {
            DirtyState { terminal_size: true, last_width: w, last_height: h, ..s }
        } else {
            s
        },
        DirtyOp::ClearAll => DirtyState {
            queue: false,
            queue_selection: false,
            current_song: false,
            status: false,
            progress: false,
            cover_art: false,
            library: false,
            menu_mode: false,
            panel_focus: false,
            terminal_size: false,
            force_full: false,
            ..s
        },
        DirtyOp::ClearProgress => DirtyState { progress: false, ..s },
    }
}

/// The flags after a sequence of calls, in order.
pub open spec fn apply_ops(s: DirtyState, ops: Seq<DirtyOp>) -> DirtyState
    decreases ops.len(),
{
    if ops.len() == 0 {
        s
    } else {
        op_step(apply_ops(s, ops.drop_last()), ops.last())
    }
}

/// No call of the sequence clears all flags.
pub open spec fn no_clear_all(ops: Seq<DirtyOp>) -> bool {
    forall|i: int| 0 <= i < ops.len() ==> !(#[trigger] ops[i] is ClearAll)
}

/// Every flag but progress that is set in `a` is set in `b`.
pub open spec fn kept_flags(a: DirtyState, b: DirtyState) -> bool {
    &&& a.queue ==> b.queue
    &&& a.queue_selection ==> b.queue_selection
    &&& a.current_song ==> b.current_song
    &&& a.status ==> b.status
    &&& a.cover_art ==> b.cover_art
    &&& a.library ==> b.library
    &&& a.menu_mode ==> b.menu_mode
    &&& a.panel_focus ==> b.panel_focus
    &&& a.terminal_size ==> b.terminal_size
    &&& a.force_full ==> b.force_full
}

/// Until the flags are cleared, no flag but progress is ever unset.
pub proof fn lemma_flags_kept_until_clear(s: DirtyState, ops: Seq<DirtyOp>)
    requires
        no_clear_all(ops),
    ensures
        kept_flags(s, apply_ops(s, ops)),
    decreases ops.len(),
{
    if ops.len() > 0 {
        let p = ops.drop_last();
        assert forall|i: int| 0 <= i < p.len() implies !(#[trigger] p[i] is ClearAll) by {
            assert(p[i] == ops[i]);
        }
        lemma_flags_kept_until_clear(s, p);
        assert(!(ops[ops.len() - 1] is ClearAll));
    }
}

/// The call `op` on flags `st` asks for a full redraw: a forced redraw, a
/// change of menu mode, or a terminal size other than the remembered one.
pub open spec fn redraw_trigger(st: DirtyState, op: DirtyOp) -> bool {
    match op {
        DirtyOp::MarkFullRedraw => true,
        DirtyOp::MarkMenuMode => true,
        DirtyOp::CheckTerminalSize(w, h) => w != st.last_width || h != st.last_height,
        _ => false,
    }
}

/// The call `op` on flags `st` makes the library panels dirty: a mark of
/// the library or of the panel focus, a forced redraw, or a terminal size
/// other than the remembered one.
pub open spec fn library_trigger(st: DirtyState, op: DirtyOp) -> bool {
    match op {
        DirtyOp::MarkLibrary => true,
        DirtyOp::MarkPanelFocus => true,
        DirtyOp::MarkFullRedraw => true,
        DirtyOp::CheckTerminalSize(w, h) => w != st.last_width || h != st.last_height,
        _ => false,
    }
}

/// Until the flags are cleared, a full redraw is needed exactly when it
/// was needed at the start or some call since asked for one.
pub proof fn lemma_full_redraw_iff(s: DirtyState, ops: Seq<DirtyOp>)
    requires
        no_clear_all(ops),
    ensures
        apply_ops(s, ops).full_redraw() <==> (s.full_redraw() || exists|i: int|
            0 <= i < ops.len() && #[trigger] redraw_trigger(apply_ops(s, ops.take(i)), ops[i])),
    decreases ops.len(),
{
    if ops.len() == 0 {
    } else {
        let n = ops.len() - 1;
        let p = ops.drop_last();
        assert forall|i: int| 0 <= i < p.len() implies !(#[trigger] p[i] is ClearAll) by {
            assert(p[i] == ops[i]);
        }
        lemma_full_redraw_iff(s, p);
        assert(ops.take(n) == p);
        assert(!(ops[n] is ClearAll));
        let t = apply_ops(s, p);
        assert(apply_ops(s, ops).full_redraw() <==> (t.full_redraw() || redraw_trigger(t, ops[n])));
        if exists|i: int| 0 <= i < p.len() && #[trigger] redraw_trigger(apply_ops(s, p.take(i)), p[i]) {
            let i = choose|i: int| 0 <= i < p.len() && #[trigger] redraw_trigger(apply_ops(s, p.take(i)), p[i]);
            assert(p.take(i) == ops.take(i));
            assert(p[i] == ops[i]);
            assert(redraw_trigger(apply_ops(s, ops.take(i)), ops[i]));
        }
        if exists|i: int| 0 <= i < ops.len() && #[trigger] redraw_trigger(apply_ops(s, ops.take(i)), ops[i]) {
            let i = choose|i: int| 0 <= i < ops.len() && #[trigger] redraw_trigger(apply_ops(s, ops.take(i)), ops[i]);
            if i < n {
                assert(p.take(i) == ops.take(i));
                assert(p[i] == ops[i]);
                assert(redraw_trigger(apply_ops(s, p.take(i)), p[i]));
            }
        }
    }
}

/// Until the flags are cleared, the library panels are dirty exactly when
/// they were at the start or some call since made them so; clearing the
/// progress flag never changes it.
pub proof fn lemma_library_dirty_iff(s: DirtyState, ops: Seq<DirtyOp>)
    requires
        no_clear_all(ops),
    ensures
        apply_ops(s, ops).library_dirty() <==> (s.library_dirty() || exists|i: int|
            0 <= i < ops.len() && #[trigger] library_trigger(apply_ops(s, ops.take(i)), ops[i])),
    decreases ops.len(),
{
    if ops.len() == 0 {
    } else {
        let n = ops.len() - 1;
        let p = ops.drop_last();
        assert forall|i: int| 0 <= i < p.len() implies !(#[trigger] p[i] is ClearAll) by {
            assert(p[i] == ops[i]);
        }
        lemma_library_dirty_iff(s, p);
        assert(ops.take(n) == p);
        assert(!(ops[n] is ClearAll));
        let t = apply_ops(s, p);
        assert(apply_ops(s, ops).library_dirty() <==> (t.library_dirty() || library_trigger(t, ops[n])));
        if exists|i: int| 0 <= i < p.len() && #[trigger] library_trigger(apply_ops(s, p.take(i)), p[i]) {
            let i = choose|i: int| 0 <= i < p.len() && #[trigger] library_trigger(apply_ops(s, p.take(i)), p[i]);
            assert(p.take(i) == ops.take(i));
            assert(p[i] == ops[i]);
            assert(library_trigger(apply_ops(s, ops.take(i)), ops[i]));
        }
        if exists|i: int| 0 <= i < ops.len() && #[trigger] library_trigger(apply_ops(s, ops.take(i)), ops[i]) {
            let i = choose|i: int| 0 <= i < ops.len() && #[trigger] library_trigger(apply_ops(s, ops.take(i)), ops[i]);
            if i < n {
                assert(p.take(i) == ops.take(i));
                assert(p[i] == ops[i]);
                assert(library_trigger(apply_ops(s, p.take(i)), p[i]));
            }
        }
    }
}

/// After any mark other than a progress mark, some region stays dirty until
/// the flags are cleared, whatever calls come in between.
pub proof fn lemma_any_dirty_until_clear(s: DirtyState, op: DirtyOp, ops: Seq<DirtyOp>)
    requires
        !(op is MarkProgress),
        !(op is ClearAll),
        !(op is ClearProgress),
        !(op is CheckTerminalSize),
        no_clear_all(ops),
    ensures
        apply_ops(op_step(s, op), ops).any(),
{
    lemma_flags_kept_until_clear(op_step(s, op), ops);
}

/// After a forced full redraw or a change of menu mode, a full redraw stays
/// needed until the flags are cleared.
pub proof fn lemma_full_redraw_until_clear(s: DirtyState, op: DirtyOp, ops: Seq<DirtyOp>)
    requires
        op is MarkFullRedraw || op is MarkMenuMode,
        no_clear_all(ops),
    ensures
        apply_ops(op_step(s, op), ops).full_redraw(),
{
    lemma_flags_kept_until_clear(op_step(s, op), ops);
}

/// After the library or the panel focus is marked, or a full redraw is
/// forced, the library panels stay dirty until the flags are cleared.
pub proof fn lemma_library_dirty_until_clear(s: DirtyState, op: DirtyOp, ops: Seq<DirtyOp>)
    requires
        op is MarkLibrary || op is MarkPanelFocus || op is MarkFullRedraw,
        no_clear_all(ops),
    ensures
        apply_ops(op_step(s, op), ops).library_dirty(),
{
    lemma_flags_kept_until_clear(op_step(s, op), ops);
}

/// Tracks which UI regions need to be rebuilt.
///
/// Each flag tells whether the data behind a region changed since the last
/// render. The renderer rebuilds the regions whose flags are set and then
/// clears all flags.
#[derive(Debug, Default)]
pub struct DirtyFlags {
    queue: bool,
    queue_selection: bool,
    current_song: bool,
    status: bool,
    progress: bool,
    cover_art: bool,
    library: bool,
    menu_mode: bool,
    panel_focus: bool,
    terminal_size: bool,
    force_full: bool,
    last_width: u16,
    last_height: u16,
}

impl View for DirtyFlags {
    type V = DirtyState;

    closed spec fn view(&self) -> DirtyState {
        DirtyState {
            queue: self.queue,
            queue_selection: self.queue_selection,
            current_song: self.current_song,
            status: self.status,
            progress: self.progress,
            cover_art: self.cover_art,
            library: self.library,
            menu_mode: self.menu_mode,
            panel_focus: self.panel_focus,
            terminal_size: self.terminal_size,
            force_full: self.force_full,
            last_width: self.last_width,
            last_height: self.last_height,
        }
    }
}

impl DirtyFlags {
    /// Create flags with every region marked dirty, so the first frame is drawn in full.
    pub fn new() -> (r: Self)
        ensures
            r@.all_set(),
            r@.last_width == 0,
            r@.last_height == 0,
    {
        Self {
            queue: true,
            queue_selection: true,
            current_song: true,
            status: true,
            progress: true,
            cover_art: true,
            library: true,
            menu_mode: true,
            panel_focus: true,
            terminal_size: true,
            force_full: true,
            last_width: 0,
            last_height: 0,
        }
    }

    /// Mark the queue as dirty (items changed).
    pub fn mark_queue(&mut self)
        ensures
            final(self)@ == op_step(old(self)@, DirtyOp::MarkQueue),
            final(self)@ == (DirtyState { queue: true, ..old(self)@ }),
    {
        self.queue = true;
    }

    /// Mark the queue selection as dirty.
    pub fn mark_queue_selection(&mut self)
        ensures
            final(self)@ == op_step(old(self)@, DirtyOp::MarkQueueSelection),
            final(self)@ == (DirtyState { queue_selection: true, ..old(self)@ }),
    {
        self.queue_selection = true;
    }

    /// Mark the current song as dirty.
    pub fn mark_current_song(&mut self)
        ensures
            final(self)@ == op_step(old(self)@, DirtyOp::MarkCurrentSong),
            final(self)@ == (DirtyState { current_song: true, ..old(self)@ }),
    {
        self.current_song = true;
    }

    /// Mark the status (volume, play state, options) as dirty.
    pub fn mark_status(&mut self)
        ensures
            final(self)@ == op_step(old(self)@, DirtyOp::MarkStatus),
            final(self)@ == (DirtyState { status: true, ..old(self)@ }),
    {
        self.status = true;
    }

    /// Mark the progress (elapsed time) as dirty.
    pub fn mark_progress(&mut self)
        ensures
            final(self)@ == op_step(old(self)@, DirtyOp::MarkProgress),
            final(self)@ == (DirtyState { progress: true, ..old(self)@ }),
    {
        self.progress = true;
    }

    /// Mark the cover art as dirty.
    pub fn mark_cover_art(&mut self)
        ensures
            final(self)@ == op_step(old(self)@, DirtyOp::MarkCoverArt),
            final(self)@ == (DirtyState { cover_art: true, ..old(self)@ }),
    {
        self.cover_art = true;
    }

    /// Mark the library panels as dirty.
    pub fn mark_library(&mut self)
        ensures
            final(self)@ == op_step(old(self)@, DirtyOp::MarkLibrary),
            final(self)@ == (DirtyState { library: true, ..old(self)@ }),
    {
        self.library = true;
    }

    /// Mark the menu mode as dirty.
    pub fn mark_menu_mode(&mut self)
        ensures
            final(self)@ == op_step(old(self)@, DirtyOp::MarkMenuMode),
            final(self)@ == (DirtyState { menu_mode: true, ..old(self)@ }),
    {
        self.menu_mode = true;
    }

    /// Mark the panel focus as dirty.
    pub fn mark_panel_focus(&mut self)
        ensures
            final(self)@ == op_step(old(self)@, DirtyOp::MarkPanelFocus),
            final(self)@ == (DirtyState { panel_focus: true, ..old(self)@ }),
    {
        self.panel_focus = true;
    }

    /// Force a full redraw of all regions.
    pub fn mark_full_redraw(&mut self)
        ensures
            final(self)@ == op_step(old(self)@, DirtyOp::MarkFullRedraw),
            final(self)@ == (DirtyState { force_full: true, ..old(self)@ }),
    {
        self.force_full = true;
    }

    /// Remember the terminal size; a size different from the remembered one
    /// marks the terminal size as dirty.
    pub fn check_terminal_size(&mut self, width: u16, height: u16)
        ensures
            final(self)@ == op_step(old(self)@, DirtyOp::CheckTerminalSize(width, height)),
            (width != old(self)@.last_width || height != old(self)@.last_height) ==> final(self)@
                == (DirtyState {
                terminal_size: true,
                last_width: width,
                last_height: height,
                ..old(self)@
            }),
            (width == old(self)@.last_width && height == old(self)@.last_height) ==> final(self)@
                == old(self)@,
    {
        if width != self.last_width || height != self.last_height {
            self.terminal_size = true;
            self.last_width = width;
            self.last_height = height;
        }
    }

    /// Whether the queue needs a redraw.
    pub fn is_queue_dirty(&self) -> (r: bool)
        ensures
            r == self@.queue_dirty(),
    {
        self.force_full || self.terminal_size || self.queue
    }

    /// Whether the queue selection needs a redraw.
    pub fn is_queue_selection_dirty(&self) -> (r: bool)
        ensures
            r == self@.queue_selection_dirty(),
    {
        self.force_full || self.terminal_size || self.queue || self.queue_selection
    }

    /// Whether the current song information needs a redraw.
    pub fn is_current_song_dirty(&self) -> (r: bool)
        ensures
            r == self@.current_song_dirty(),
    {
        self.force_full || self.terminal_size || self.current_song
    }

    /// Whether the status box needs a redraw.
    pub fn is_status_dirty(&self) -> (r: bool)
        ensures
            r == self@.status_dirty(),
    {
        self.force_full || self.terminal_size || self.status || self.menu_mode
    }

    /// Whether the progress bar needs a redraw.
    pub fn is_progress_dirty(&self) -> (r: bool)
        ensures
            r == self@.progress_dirty(),
    {
        self.force_full || self.terminal_size || self.progress || self.status
    }

    /// Whether the cover art needs a redraw.
    pub fn is_cover_art_dirty(&self) -> (r: bool)
        ensures
            r == self@.cover_art_dirty(),
    {
        self.force_full || self.terminal_size || self.cover_art
    }

    /// Whether the library panels need a redraw.
    pub fn is_library_dirty(&self) -> (r: bool)
        ensures
            r == self@.library_dirty(),
    {
        self.force_full || self.terminal_size || self.library || self.panel_focus
    }

    /// Whether any region needs a redraw.
    pub fn any_dirty(&self) -> (r: bool)
        ensures
            r == self@.any(),
    {
        self.force_full || self.terminal_size || self.queue || self.queue_selection
            || self.current_song || self.status || self.progress || self.cover_art
            || self.library || self.menu_mode || self.panel_focus
    }

    /// Whether a full redraw is needed (resize, mode change, forced).
    pub fn needs_full_redraw(&self) -> (r: bool)
        ensures
            r == self@.full_redraw(),
    {
        self.force_full || self.terminal_size || self.menu_mode
    }

    /// Clear all flags after a render; the remembered terminal size stays.
    pub fn clear_all(&mut self)
        ensures
            final(self)@ == op_step(old(self)@, DirtyOp::ClearAll),
            final(self)@.all_clear(),
            final(self)@.last_width == old(self)@.last_width,
            final(self)@.last_height == old(self)@.last_height,
    {
        self.queue = false;
        self.queue_selection = false;
        self.current_song = false;
        self.status = false;
        self.progress = false;
        self.cover_art = false;
        self.library = false;
        self.menu_mode = false;
        self.panel_focus = false;
        self.terminal_size = false;
        self.force_full = false;
    }

    /// Clear only the progress flag (for frequent progress updates).
    pub fn clear_progress(&mut self)
        ensures
            final(self)@ == op_step(old(self)@, DirtyOp::ClearProgress),
            final(self)@ == (DirtyState { progress: false, ..old(self)@ }),
    {
        self.progress = false;
    }
}

/// A forced full redraw makes every region dirty.
pub proof fn lemma_force_full_dirties_everything(s: DirtyState)
    requires
        s.force_full,
    ensures
        s.queue_dirty(),
        s.queue_selection_dirty(),
        s.current_song_dirty(),
        s.status_dirty(),
        s.progress_dirty(),
        s.cover_art_dirty(),
        s.library_dirty(),
        s.any(),
        s.full_redraw(),
{
}

/// After clearing, nothing is dirty and no full redraw is needed.
pub proof fn lemma_clear_means_clean(s: DirtyState)
    requires
        s.all_clear(),
    ensures
        !s.any(),
        !s.full_redraw(),
        !s.queue_dirty(),
        !s.queue_selection_dirty(),
        !s.current_song_dirty(),
        !s.status_dirty(),
        !s.progress_dirty(),
        !s.cover_art_dirty(),
        !s.library_dirty(),
{
}

/// A full redraw redraws the status box too.
pub proof fn lemma_full_redraw_redraws_status(s: DirtyState)
    ensures
        s.full_redraw() ==> s.status_dirty(),
{
}

/// A region that needs a redraw makes the whole frame need a render.
pub proof fn lemma_region_dirty_implies_any(s: DirtyState)
    ensures
        s.queue_dirty() ==> s.any(),
        s.queue_selection_dirty() ==> s.any(),
        s.current_song_dirty() ==> s.any(),
        s.status_dirty() ==> s.any(),
        s.progress_dirty() ==> s.any(),
        s.cover_art_dirty() ==> s.any(),
        s.library_dirty() ==> s.any(),
        s.full_redraw() ==> s.any(),
{
}

} // verus!
