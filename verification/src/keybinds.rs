//! Turning key presses into actions, with bindings of several keys in a row.

use vstd::prelude::*;
use std::collections::HashMap;
use std::time::Instant;
use crate::actions::MPDAction;
use crate::clock::{elapsed_beyond, now};
use crate::keymap::{key_id, key_number, sequences_view, KeyPress, SequentialKeyBinding};
use crate::menu::{MenuMode, PanelFocus};

verus! {

broadcast use vstd::std_specs::hash::group_hash_axioms;

/// Whether keys of a sequence are being collected.
#[derive(Debug)]
pub enum KeyState {
    Idle,
    Awaiting { sequence: Vec<KeyPress>, started: Instant },
}

/// How long a pending key sequence waits for its next key, in milliseconds.
pub const SEQUENCE_TIMEOUT_MS: u64 = 1000;

/// The key bindings and the state of a sequence being typed.
#[derive(Debug)]
pub struct KeyBinds {
    global_map: HashMap<u64, MPDAction>,
    queue_map: HashMap<u64, MPDAction>,
    artists_map: HashMap<u64, MPDAction>,
    albums_map: HashMap<u64, MPDAction>,
    sequential_bindings: Vec<SequentialKeyBinding>,
    current_state: KeyState,
    timeout_ms: u64,
}

/// The action a map binds to a key.
pub open spec fn lookup(m: Map<u64, MPDAction>, k: KeyPress) -> Option<MPDAction> {
    if m.dom().contains(key_id(k)) {
        Some(m[key_id(k)])
    } else {
        None
    }
}

/// The answer of the single-key maps: `Some` when a map binds the key (with
/// what is returned for it), `None` when none does. Global bindings come
/// first, then those of the current view, adjusted to the focused panel.
pub open spec fn map_outcome(
    g: Map<u64, MPDAction>,
    q: Map<u64, MPDAction>,
    ar: Map<u64, MPDAction>,
    al: Map<u64, MPDAction>,
    k: KeyPress,
    mode: MenuMode,
    focus: PanelFocus,
) -> Option<Option<MPDAction>> {
    match lookup(g, k) {
        Some(a) => Some(
            if a == MPDAction::PlaySelected && mode == MenuMode::Artists {
                None
            } else {
                Some(a)
            },
        ),
        None => match mode {
            MenuMode::Queue => match lookup(q, k) {
                Some(a) => Some(Some(a)),
                None => None,
            },
            MenuMode::Artists => match lookup(ar, k) {
                Some(a) => Some(
                    if a == MPDAction::SwitchPanelRight && focus == PanelFocus::Albums {
                        Some(MPDAction::ToggleAlbumExpansion)
                    } else {
                        Some(a)
                    },
                ),
                None => None,
            },
            MenuMode::Albums => match lookup(al, k) {
                Some(a) => Some(
                    if a == MPDAction::SwitchPanelRight && focus == PanelFocus::AlbumTracks {
                        None
                    } else {
                        Some(a)
                    },
                ),
                None => None,
            },
        },
    }
}

/// Some sequential binding starts with the key.
pub open spec fn could_start(seqs: Seq<(Seq<KeyPress>, MPDAction)>, k: KeyPress) -> bool {
    exists|i: int| 0 <= i < seqs.len() && (#[trigger] seqs[i]).0.len() > 0 && seqs[i].0[0] == k
}

/// The action of the first sequential binding that is exactly `s`.
pub open spec fn first_match(seqs: Seq<(Seq<KeyPress>, MPDAction)>, s: Seq<KeyPress>) -> Option<
    MPDAction,
>
    decreases seqs.len(),
{
    if seqs.len() == 0 {
        None
    } else if seqs[0].0 == s {
        Some(seqs[0].1)
    } else {
        first_match(seqs.drop_first(), s)
    }
}

/// `s` begins some sequential binding.
pub open spec fn is_prefix_of_some(seqs: Seq<(Seq<KeyPress>, MPDAction)>, s: Seq<KeyPress>) -> bool {
    exists|i: int|
        0 <= i < seqs.len() && s.len() <= (#[trigger] seqs[i]).0.len() && seqs[i].0.take(
            s.len() as int,
        ) == s
}

/// A key pressed with no sequence pending: the answer of the maps, else the
/// start of a sequence when one begins with the key.
pub open spec fn idle_step(
    g: Map<u64, MPDAction>,
    q: Map<u64, MPDAction>,
    ar: Map<u64, MPDAction>,
    al: Map<u64, MPDAction>,
    seqs: Seq<(Seq<KeyPress>, MPDAction)>,
    k: KeyPress,
    mode: MenuMode,
    focus: PanelFocus,
) -> (Option<Seq<KeyPress>>, Option<MPDAction>) {
    match map_outcome(g, q, ar, al, k, mode, focus) {
        Some(r) => (None, r),
        None => if could_start(seqs, k) {
            (Some(seq![k]), None)
        } else {
            (None, None)
        },
    }
}

/// A key pressed: the pending sequence afterwards and the action returned.
/// When the pending sequence has timed out the key counts as a fresh one;
/// otherwise it extends the sequence, which completes a binding, stays
/// pending while it begins one, or is dropped.
pub open spec fn key_step(
    g: Map<u64, MPDAction>,
    q: Map<u64, MPDAction>,
    ar: Map<u64, MPDAction>,
    al: Map<u64, MPDAction>,
    seqs: Seq<(Seq<KeyPress>, MPDAction)>,
    pending: Option<Seq<KeyPress>>,
    k: KeyPress,
    mode: MenuMode,
    focus: PanelFocus,
    expired: bool,
) -> (Option<Seq<KeyPress>>, Option<MPDAction>) {
    match pending {
        None => idle_step(g, q, ar, al, seqs, k, mode, focus),
        Some(s) => if expired {
            idle_step(g, q, ar, al, seqs, k, mode, focus)
        } else {
            let s2 = s.push(k);
            match first_match(seqs, s2) {
                Some(a) => (None, Some(a)),
                None => if is_prefix_of_some(seqs, s2) {
                    (Some(s2), None)
                } else {
                    (None, None)
                },
            }
        },
    }
}

fn keys_equal(a: &Vec<KeyPress>, b: &Vec<KeyPress>) -> (r: bool)
    ensures
        r == (a@ == b@),
{
    if a.len() != b.len() {
        return false;
    }
    let mut i: usize = 0;
    while i < a.len()
        invariant
            i <= a@.len(),
            a@.len() == b@.len(),
            forall|j: int| 0 <= j < i ==> a@[j] == b@[j],
        decreases a@.len() - i,
    {
        let x = a[i];
        let y = b[i];
        if !(x.0 == y.0 && x.1 == y.1) {
            return false;
        }
        i = i + 1;
    }
    assert(a@ =~= b@);
    true
}

fn begins(s: &Vec<KeyPress>, b: &Vec<KeyPress>) -> (r: bool)
    ensures
        r == (s@.len() <= b@.len() && b@.take(s@.len() as int) == s@),
{
    if s.len() > b.len() {
        return false;
    }
    let mut i: usize = 0;
    while i < s.len()
        invariant
            i <= s@.len(),
            s@.len() <= b@.len(),
            forall|j: int| 0 <= j < i ==> s@[j] == b@[j],
        decreases s@.len() - i,
    {
        let x = s[i];
        let y = b[i];
        if !(x.0 == y.0 && x.1 == y.1) {
            assert(b@.take(s@.len() as int)[i as int] != s@[i as int]);
            return false;
        }
        i = i + 1;
    }
    assert(b@.take(s@.len() as int) =~= s@);
    true
}

fn map_get(m: &HashMap<u64, MPDAction>, k: KeyPress) -> (r: Option<MPDAction>)
    ensures
        r == lookup(m@, k),
{
    let n = key_number(k);
    match m.get(&n) {
        Some(a) => Some(*a),
        None => None,
    }
}

impl KeyBinds {
    /// The global bindings.
    pub closed spec fn global(&self) -> Map<u64, MPDAction> {
        self.global_map@
    }

    /// The queue bindings.
    pub closed spec fn queue(&self) -> Map<u64, MPDAction> {
        self.queue_map@
    }

    /// The artists view bindings.
    pub closed spec fn artists(&self) -> Map<u64, MPDAction> {
        self.artists_map@
    }

    /// The albums view bindings.
    pub closed spec fn albums(&self) -> Map<u64, MPDAction> {
        self.albums_map@
    }

    /// The sequential bindings.
    pub closed spec fn sequences(&self) -> Seq<(Seq<KeyPress>, MPDAction)> {
        sequences_view(self.sequential_bindings@)
    }

    /// The keys of the pending sequence, if one is being typed.
    pub closed spec fn pending(&self) -> Option<Seq<KeyPress>> {
        match self.current_state {
            KeyState::Idle => None,
            KeyState::Awaiting { sequence, .. } => Some(sequence@),
        }
    }

    /// How long a pending sequence waits for its next key, in milliseconds.
    pub closed spec fn timeout_millis(&self) -> u64 {
        self.timeout_ms
    }

    /// The bindings and the timeout are those of `other`.
    pub open spec fn same_bindings(&self, other: &Self) -> bool {
        &&& self.timeout_millis() == other.timeout_millis()
        &&& self.global() == other.global()
        &&& self.queue() == other.queue()
        &&& self.artists() == other.artists()
        &&& self.albums() == other.albums()
        &&& self.sequences() == other.sequences()
    }

    /// What a key press does in this state.
    pub open spec fn step(&self, k: KeyPress, mode: MenuMode, focus: PanelFocus, expired: bool) -> (
        Option<Seq<KeyPress>>,
        Option<MPDAction>,
    ) {
        key_step(
            self.global(),
            self.queue(),
            self.artists(),
            self.albums(),
            self.sequences(),
            self.pending(),
            k,
            mode,
            focus,
            expired,
        )
    }

    /// Key bindings with no sequence pending; a sequence times out one
    /// second after its last key.
    pub fn new_with_sequential(
        global_map: HashMap<u64, MPDAction>,
        queue_map: HashMap<u64, MPDAction>,
        artists_map: HashMap<u64, MPDAction>,
        albums_map: HashMap<u64, MPDAction>,
        sequential_bindings: Vec<SequentialKeyBinding>,
    ) -> (r: Self)
        ensures
            r.global() == global_map@,
            r.queue() == queue_map@,
            r.artists() == artists_map@,
            r.albums() == albums_map@,
            r.sequences() == sequences_view(sequential_bindings@),
            r.pending() is None,
            r.timeout_millis() == SEQUENCE_TIMEOUT_MS,
    {
        KeyBinds {
            global_map,
            queue_map,
            artists_map,
            albums_map,
            sequential_bindings,
            current_state: KeyState::Idle,
            timeout_ms: SEQUENCE_TIMEOUT_MS,
        }
    }

    fn could_start_sequence(&self, k: KeyPress) -> (r: bool)
        ensures
            r == could_start(self.sequences(), k),
    {
        let ghost seqs = self.sequences();
        let mut i: usize = 0;
        while i < self.sequential_bindings.len()
            invariant
                i <= self.sequential_bindings@.len(),
                seqs == self.sequences(),
                forall|j: int|
                    0 <= j < i ==> !((#[trigger] seqs[j]).0.len() > 0 && seqs[j].0[0] == k),
            decreases self.sequential_bindings@.len() - i,
        {
            let b = &self.sequential_bindings[i];
            assert(seqs[i as int] == (b.sequence@, b.action));
            if b.sequence.len() > 0 {
                let first = b.sequence[0];
                if first.0 == k.0 && first.1 == k.1 {
                    return true;
                }
            }
            i = i + 1;
        }
        false
    }

    fn first_exact_match(&self, s: &Vec<KeyPress>) -> (r: Option<MPDAction>)
        ensures
            r == first_match(self.sequences(), s@),
    {
        let ghost seqs = self.sequences();
        let mut i: usize = 0;
        assert(seqs.skip(0) == seqs);
        while i < self.sequential_bindings.len()
            invariant
                i <= self.sequential_bindings@.len(),
                seqs == self.sequences(),
                first_match(seqs, s@) == first_match(seqs.skip(i as int), s@),
            decreases self.sequential_bindings@.len() - i,
        {
            let b = &self.sequential_bindings[i];
            assert(seqs.skip(i as int)[0] == (b.sequence@, b.action));
            assert(seqs.skip(i as int).drop_first() == seqs.skip(i + 1));
            if keys_equal(&b.sequence, s) {
                return Some(b.action);
            }
            i = i + 1;
        }
        None
    }

    fn continues_some(&self, s: &Vec<KeyPress>) -> (r: bool)
        ensures
            r == is_prefix_of_some(self.sequences(), s@),
    {
        let ghost seqs = self.sequences();
        let mut i: usize = 0;
        while i < self.sequential_bindings.len()
            invariant
                i <= self.sequential_bindings@.len(),
                seqs == self.sequences(),
                forall|j: int|
                    0 <= j < i ==> !(s@.len() <= (#[trigger] seqs[j]).0.len() && seqs[j].0.take(
                        s@.len() as int,
                    ) == s@),
            decreases self.sequential_bindings@.len() - i,
        {
            let b = &self.sequential_bindings[i];
            assert(seqs[i as int] == (b.sequence@, b.action));
            if begins(s, &b.sequence) {
                return true;
            }
            i = i + 1;
        }
        false
    }

    fn idle_key(&mut self, key: KeyPress, mode: MenuMode, focus: PanelFocus) -> (r: Option<
        MPDAction,
    >)
        requires
            old(self).pending() is None,
        ensures
            final(self).same_bindings(old(self)),
            (final(self).pending(), r) == idle_step(
                old(self).global(),
                old(self).queue(),
                old(self).artists(),
                old(self).albums(),
                old(self).sequences(),
                key,
                mode,
                focus,
            ),
    {
        match map_get(&self.global_map, key) {
            Some(a) => {
                if a == MPDAction::PlaySelected && mode == MenuMode::Artists {
                    return None;
                }
                return Some(a);
            },
            None => {},
        }
        match mode {
            MenuMode::Queue => {
                match map_get(&self.queue_map, key) {
                    Some(a) => {
                        return Some(a);
                    },
                    None => {},
                }
            },
            MenuMode::Artists => {
                match map_get(&self.artists_map, key) {
                    Some(a) => {
                        if a == MPDAction::SwitchPanelRight && focus == PanelFocus::Albums {
                            return Some(MPDAction::ToggleAlbumExpansion);
                        }
                        return Some(a);
                    },
                    None => {},
                }
            },
            MenuMode::Albums => {
                match map_get(&self.albums_map, key) {
                    Some(a) => {
                        if a == MPDAction::SwitchPanelRight && focus == PanelFocus::AlbumTracks {
                            return None;
                        }
                        return Some(a);
                    },
                    None => {},
                }
            },
        }
        if self.could_start_sequence(key) {
            let mut sequence: Vec<KeyPress> = Vec::new();
            sequence.push(key);
            assert(sequence@ == seq![key]);
            self.current_state = KeyState::Awaiting { sequence, started: now() };
        }
        None
    }

    /// Handles a key press, given whether the pending sequence (if any) has
    /// timed out.
    pub fn handle_key_at(
        &mut self,
        key: KeyPress,
        mode: MenuMode,
        focus: PanelFocus,
        expired: bool,
    ) -> (r: Option<MPDAction>)
        ensures
            final(self).same_bindings(old(self)),
            (final(self).pending(), r) == old(self).step(key, mode, focus, expired),
    {
        let mut state = KeyState::Idle;
        std::mem::swap(&mut state, &mut self.current_state);
        match state {
            KeyState::Idle => self.idle_key(key, mode, focus),
            KeyState::Awaiting { sequence, started } => {
                if expired {
                    return self.idle_key(key, mode, focus);
                }
                let mut sequence = sequence;
                sequence.push(key);
                match self.first_exact_match(&sequence) {
                    Some(a) => {
                        return Some(a);
                    },
                    None => {},
                }
                if self.continues_some(&sequence) {
                    self.current_state = KeyState::Awaiting { sequence, started: now() };
                }
                None
            },
        }
    }

    fn timed_out(&self) -> (r: bool)
        ensures
            self.pending() is None ==> !r,
    {
        match &self.current_state {
            KeyState::Idle => false,
            KeyState::Awaiting { started, .. } => elapsed_beyond(started, self.timeout_ms as u128 * 1_000_000),
        }
    }

    /// Handles a key press: a pending sequence that waited longer than the
    /// timeout is dropped first. The outcome is that of `step` for whichever
    /// answer the clock gave.
    pub fn handle_key(&mut self, key: KeyPress, mode: MenuMode, focus: PanelFocus) -> (r: Option<
        MPDAction,
    >)
        ensures
            final(self).same_bindings(old(self)),
            (final(self).pending(), r) == old(self).step(key, mode, focus, false) || (
            final(self).pending(),
            r,
            ) == old(self).step(key, mode, focus, true),
            old(self).pending() is None ==> (final(self).pending(), r) == old(self).step(
                key,
                mode,
                focus,
                false,
            ),
    {
        let expired = self.timed_out();
        self.handle_key_at(key, mode, focus, expired)
    }

    /// The keys typed so far of a pending sequence, for display.
    pub fn get_current_sequence(&self) -> (r: Vec<KeyPress>)
        ensures
            r@ == match self.pending() {
                Some(s) => s,
                None => Seq::empty(),
            },
    {
        match &self.current_state {
            KeyState::Awaiting { sequence, .. } => {
                let mut r: Vec<KeyPress> = Vec::new();
                let mut i: usize = 0;
                while i < sequence.len()
                    invariant
                        i <= sequence@.len(),
                        r@ == sequence@.take(i as int),
                    decreases sequence@.len() - i,
                {
                    r.push(sequence[i]);
                    i = i + 1;
                    assert(r@ == sequence@.take(i as int));
                }
                assert(sequence@.take(sequence@.len() as int) == sequence@);
                r
            },
            KeyState::Idle => Vec::new(),
        }
    }

    /// Whether a sequence is pending.
    pub fn is_awaiting_input(&self) -> (r: bool)
        ensures
            r == (self.pending() is Some),
    {
        match &self.current_state {
            KeyState::Awaiting { .. } => true,
            KeyState::Idle => false,
        }
    }

    /// Drops a pending sequence that has timed out; never returns an action.
    pub fn update(&mut self) -> (r: Option<MPDAction>)
        ensures
            r is None,
            final(self).same_bindings(old(self)),
            final(self).pending() is None || final(self).pending() == old(self).pending(),
    {
        if self.timed_out() {
            self.current_state = KeyState::Idle;
        }
        None
    }
}

/// A pending sequence always begins some sequential binding: every key
/// press keeps it so, whatever the clock says.
pub proof fn lemma_pending_begins_a_binding(
    kb: &KeyBinds,
    k: KeyPress,
    mode: MenuMode,
    focus: PanelFocus,
    expired: bool,
)
    ensures
        kb.step(k, mode, focus, expired).0 matches Some(s) ==> s.len() > 0 && is_prefix_of_some(
            kb.sequences(),
            s,
        ),
{
    let seqs = kb.sequences();
    let (p, _) = kb.step(k, mode, focus, expired);
    if let Some(s) = p {
        if s == seq![k] && could_start(seqs, k) {
            let i = choose|i: int| 0 <= i < seqs.len() && (#[trigger] seqs[i]).0.len() > 0 && seqs[i].0[0] == k;
            assert(seqs[i].0.take(1) =~= seq![k]);
        }
    }
}

/// In the artists view with the albums panel focused, a key that only the
/// artists map binds, to moving right, expands or collapses the album under
/// the cursor instead: it never moves right, and nothing stays pending.
pub proof fn lemma_right_on_albums_expands(kb: &KeyBinds, k: KeyPress, expired: bool)
    requires
        kb.pending() is None || expired,
        lookup(kb.global(), k) is None,
        lookup(kb.artists(), k) == Some(MPDAction::SwitchPanelRight),
    ensures
        kb.step(k, MenuMode::Artists, PanelFocus::Albums, expired) == (
            None::<Seq<KeyPress>>,
            Some(MPDAction::ToggleAlbumExpansion),
        ),
        kb.step(k, MenuMode::Artists, PanelFocus::Albums, expired).1 != Some(
            MPDAction::SwitchPanelRight,
        ),
{
}

/// In the artists view with the artists panel focused, the same key moves
/// right to the albums panel.
pub proof fn lemma_right_on_artists_moves(kb: &KeyBinds, k: KeyPress, expired: bool)
    requires
        kb.pending() is None || expired,
        lookup(kb.global(), k) is None,
        lookup(kb.artists(), k) == Some(MPDAction::SwitchPanelRight),
    ensures
        kb.step(k, MenuMode::Artists, PanelFocus::Artists, expired).1 == Some(
            MPDAction::SwitchPanelRight,
        ),
{
}

} // verus!
