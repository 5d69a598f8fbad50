//! Key bindings: the key names of the configuration, and the key maps built from them.

use vstd::prelude::*;
use std::collections::HashMap;
use crate::actions::MPDAction;
use crate::casing::{lowercase, to_lowercase};
use crate::scan::{char_views, split_by, split_chars, words, words_of};
use crate::text::{chars_eq, chars_of, names, string_of};

verus! {

broadcast use vstd::std_specs::hash::group_hash_axioms;

/// The modifier keys held with a key.
#[derive(Debug, Clone, Copy, PartialEq, Eq, Structural)]
pub struct KeyMods {
    pub shift: bool,
    pub control: bool,
    pub alt: bool,
    pub sup: bool,
    pub hyper: bool,
    pub meta: bool,
}

/// A key of the keyboard.
#[derive(Debug, Clone, Copy, PartialEq, Eq, Structural)]
pub enum KeyCode {
    Char(char),
    Esc,
    Enter,
    Backspace,
    Tab,
    BackTab,
    Delete,
    Insert,
    Home,
    End,
    PageUp,
    PageDown,
    Up,
    Down,
    Left,
    Right,
    F(u8),
    /// A key that no binding names.
    Other,
}

/// A key with its modifiers.
pub type KeyPress = (KeyMods, KeyCode);

/// No modifier held.
pub open spec fn no_mods() -> KeyMods {
    KeyMods { shift: false, control: false, alt: false, sup: false, hyper: false, meta: false }
}

/// The modifiers with none held.
pub fn mods_none() -> (r: KeyMods)
    ensures
        r == no_mods(),
{
    KeyMods { shift: false, control: false, alt: false, sup: false, hyper: false, meta: false }
}

/// The number identifying a key code.
pub open spec fn code_id(c: KeyCode) -> int {
    match c {
        KeyCode::Char(ch) => ch as int,
        KeyCode::Esc => 0x110000,
        KeyCode::Enter => 0x110001,
        KeyCode::Backspace => 0x110002,
        KeyCode::Tab => 0x110003,
        KeyCode::BackTab => 0x110004,
        KeyCode::Delete => 0x110005,
        KeyCode::Insert => 0x110006,
        KeyCode::Home => 0x110007,
        KeyCode::End => 0x110008,
        KeyCode::PageUp => 0x110009,
        KeyCode::PageDown => 0x11000a,
        KeyCode::Up => 0x11000b,
        KeyCode::Down => 0x11000c,
        KeyCode::Left => 0x11000d,
        KeyCode::Right => 0x11000e,
        KeyCode::Other => 0x11000f,
        KeyCode::F(n) => 0x120000 + n as int,
    }
}

/// The number identifying a set of modifiers.
pub open spec fn mods_id(m: KeyMods) -> int {
    (if m.shift {
        1int
    } else {
        0
    }) + (if m.control {
        2int
    } else {
        0
    }) + (if m.alt {
        4int
    } else {
        0
    }) + (if m.sup {
        8int
    } else {
        0
    }) + (if m.hyper {
        16int
    } else {
        0
    }) + (if m.meta {
        32int
    } else {
        0
    })
}

/// The number identifying a key press, by which the key maps are keyed.
pub open spec fn key_id(k: KeyPress) -> u64 {
    (mods_id(k.0) * 0x200000 + code_id(k.1)) as u64
}

/// Different key presses have different numbers.
pub proof fn lemma_key_id_injective(a: KeyPress, b: KeyPress)
    ensures
        key_id(a) == key_id(b) ==> a == b,
{
    assert(code_id(a.1) < 0x200000 && code_id(b.1) < 0x200000) by {
        if let KeyCode::Char(ch) = a.1 {
            assert(ch as int <= 0x10ffff);
        }
        if let KeyCode::Char(ch) = b.1 {
            assert(ch as int <= 0x10ffff);
        }
    }
    if key_id(a) == key_id(b) {
        assert(mods_id(a.0) == mods_id(b.0) && code_id(a.1) == code_id(b.1)) by (nonlinear_arith)
            requires
                mods_id(a.0) * 0x200000 + code_id(a.1) == mods_id(b.0) * 0x200000 + code_id(b.1),
                code_id(a.1) < 0x200000,
                code_id(b.1) < 0x200000,
                mods_id(a.0) < 64,
                mods_id(b.0) < 64,
        ;
        if let KeyCode::Char(x) = a.1 {
            if let KeyCode::Char(y) = b.1 {
                assert(x as int == y as int);
            }
        }
    }
}

/// The number identifying a key press.
pub fn key_number(k: KeyPress) -> (r: u64)
    ensures
        r == key_id(k),
{
    let m = k.0;
    let mut mods: u64 = 0;
    if m.shift {
        mods = mods + 1;
    }
    if m.control {
        mods = mods + 2;
    }
    if m.alt {
        mods = mods + 4;
    }
    if m.sup {
        mods = mods + 8;
    }
    if m.hyper {
        mods = mods + 16;
    }
    if m.meta {
        mods = mods + 32;
    }
    let code: u64 = match k.1 {
        KeyCode::Char(ch) => ch as u64,
        KeyCode::Esc => 0x110000,
        KeyCode::Enter => 0x110001,
        KeyCode::Backspace => 0x110002,
        KeyCode::Tab => 0x110003,
        KeyCode::BackTab => 0x110004,
        KeyCode::Delete => 0x110005,
        KeyCode::Insert => 0x110006,
        KeyCode::Home => 0x110007,
        KeyCode::End => 0x110008,
        KeyCode::PageUp => 0x110009,
        KeyCode::PageDown => 0x11000a,
        KeyCode::Up => 0x11000b,
        KeyCode::Down => 0x11000c,
        KeyCode::Left => 0x11000d,
        KeyCode::Right => 0x11000e,
        KeyCode::Other => 0x11000f,
        KeyCode::F(n) => 0x120000 + n as u64,
    };
    assert(mods == mods_id(m));
    assert(mods < 64);
    assert(mods * 0x200000 + code < 0x10000000000) by (nonlinear_arith)
        requires
            mods < 64,
            code < 0x200000,
    ;
    mods * 0x200000 + code
}

/// The upper-case form of an ASCII letter; other characters are unchanged.
pub open spec fn ascii_upper(c: char) -> char {
    if 'a' <= c && c <= 'z' {
        ((c as u8) - 32) as u8 as char
    } else {
        c
    }
}

/// A key name of one character: an ASCII character, one byte long.
pub open spec fn single_ascii(p: Seq<char>) -> bool {
    p.len() == 1 && (p[0] as u32) < 0x80
}

/// The key a lower-case key name stands for.
pub open spec fn named_code(p: Seq<char>, shift: bool) -> Option<KeyCode> {
    if p == "esc"@ {
        Some(KeyCode::Esc)
    } else if p == "enter"@ {
        Some(KeyCode::Enter)
    } else if p == "backspace"@ {
        Some(KeyCode::Backspace)
    } else if p == "tab"@ {
        Some(KeyCode::Tab)
    } else if p == "delete"@ {
        Some(KeyCode::Delete)
    } else if p == "insert"@ {
        Some(KeyCode::Insert)
    } else if p == "home"@ {
        Some(KeyCode::Home)
    } else if p == "end"@ {
        Some(KeyCode::End)
    } else if p == "pageup"@ {
        Some(KeyCode::PageUp)
    } else if p == "pagedown"@ {
        Some(KeyCode::PageDown)
    } else if p == "up"@ {
        Some(KeyCode::Up)
    } else if p == "down"@ {
        Some(KeyCode::Down)
    } else if p == "left"@ {
        Some(KeyCode::Left)
    } else if p == "right"@ {
        Some(KeyCode::Right)
    } else if p == "f1"@ {
        Some(KeyCode::F(1))
    } else if p == "f2"@ {
        Some(KeyCode::F(2))
    } else if p == "f3"@ {
        Some(KeyCode::F(3))
    } else if p == "f4"@ {
        Some(KeyCode::F(4))
    } else if p == "f5"@ {
        Some(KeyCode::F(5))
    } else if p == "f6"@ {
        Some(KeyCode::F(6))
    } else if p == "f7"@ {
        Some(KeyCode::F(7))
    } else if p == "f8"@ {
        Some(KeyCode::F(8))
    } else if p == "f9"@ {
        Some(KeyCode::F(9))
    } else if p == "f10"@ {
        Some(KeyCode::F(10))
    } else if p == "f11"@ {
        Some(KeyCode::F(11))
    } else if p == "f12"@ {
        Some(KeyCode::F(12))
    } else if p == "space"@ {
        Some(KeyCode::Char(' '))
    } else if single_ascii(p) {
        Some(
            KeyCode::Char(
                if shift {
                    ascii_upper(p[0])
                } else {
                    p[0]
                },
            ),
        )
    } else {
        None
    }
}

/// The modifiers named by the parts before the key, or `None` when one of
/// them is not `ctrl`, `alt` or `shift`.
pub open spec fn named_mods(parts: Seq<Seq<char>>) -> Option<KeyMods>
    decreases parts.len(),
{
    if parts.len() == 0 {
        Some(no_mods())
    } else {
        match named_mods(parts.drop_last()) {
            Some(m) => {
                let p = parts.last();
                if p == "ctrl"@ {
                    Some(KeyMods { control: true, ..m })
                } else if p == "alt"@ {
                    Some(KeyMods { alt: true, ..m })
                } else if p == "shift"@ {
                    Some(KeyMods { shift: true, ..m })
                } else {
                    None
                }
            },
            None => None,
        }
    }
}

/// The key a key name such as `ctrl-k`, `shift-down` or `-` stands for,
/// read without regard to case.
pub open spec fn parsed_key(name: Seq<char>) -> Option<KeyPress> {
    let l = lowercase(name);
    if l == seq!['-'] {
        Some((no_mods(), KeyCode::Char('-')))
    } else {
        let parts = split_by(l, seq!['-']);
        match named_mods(parts.drop_last()) {
            Some(m) => match named_code(parts.last(), m.shift) {
                Some(c) => Some((m, c)),
                None => None,
            },
            None => None,
        }
    }
}

fn word_is(p: &Vec<char>, w: &str) -> (r: bool)
    ensures
        r == (p@ == w@),
{
    let wc = chars_of(w);
    chars_eq(p.as_slice(), wc.as_slice())
}

fn code_of(p: &Vec<char>, shift: bool) -> (r: Option<KeyCode>)
    ensures
        r == named_code(p@, shift),
{
    if word_is(p, "esc") {
        Some(KeyCode::Esc)
    } else if word_is(p, "enter") {
        Some(KeyCode::Enter)
    } else if word_is(p, "backspace") {
        Some(KeyCode::Backspace)
    } else if word_is(p, "tab") {
        Some(KeyCode::Tab)
    } else if word_is(p, "delete") {
        Some(KeyCode::Delete)
    } else if word_is(p, "insert") {
        Some(KeyCode::Insert)
    } else if word_is(p, "home") {
        Some(KeyCode::Home)
    } else if word_is(p, "end") {
        Some(KeyCode::End)
    } else if word_is(p, "pageup") {
        Some(KeyCode::PageUp)
    } else if word_is(p, "pagedown") {
        Some(KeyCode::PageDown)
    } else if word_is(p, "up") {
        Some(KeyCode::Up)
    } else if word_is(p, "down") {
        Some(KeyCode::Down)
    } else if word_is(p, "left") {
        Some(KeyCode::Left)
    } else if word_is(p, "right") {
        Some(KeyCode::Right)
    } else if word_is(p, "f1") {
        Some(KeyCode::F(1))
    } else if word_is(p, "f2") {
        Some(KeyCode::F(2))
    } else if word_is(p, "f3") {
        Some(KeyCode::F(3))
    } else if word_is(p, "f4") {
        Some(KeyCode::F(4))
    } else if word_is(p, "f5") {
        Some(KeyCode::F(5))
    } else if word_is(p, "f6") {
        Some(KeyCode::F(6))
    } else if word_is(p, "f7") {
        Some(KeyCode::F(7))
    } else if word_is(p, "f8") {
        Some(KeyCode::F(8))
    } else if word_is(p, "f9") {
        Some(KeyCode::F(9))
    } else if word_is(p, "f10") {
        Some(KeyCode::F(10))
    } else if word_is(p, "f11") {
        Some(KeyCode::F(11))
    } else if word_is(p, "f12") {
        Some(KeyCode::F(12))
    } else if word_is(p, "space") {
        Some(KeyCode::Char(' '))
    } else if p.len() == 1 && (p[0] as u32) < 0x80 {
        let c = p[0];
        if shift && 'a' <= c && c <= 'z' {
            let upper = ((c as u8) - 32) as char;
            Some(KeyCode::Char(upper))
        } else {
            Some(KeyCode::Char(c))
        }
    } else {
        None
    }
}

/// Settings of the key bindings: for each action, the key names bound to it.
/// A name of several keys separated by spaces is a sequence, such as `g g`.
#[derive(Debug)]
pub struct BindsConfig {
    pub next: Vec<String>,
    pub previous: Vec<String>,
    pub toggle_play_pause: Vec<String>,
    pub volume_up: Vec<String>,
    pub volume_up_fine: Vec<String>,
    pub volume_down: Vec<String>,
    pub volume_down_fine: Vec<String>,
    pub toggle_mute: Vec<String>,
    pub cycle_mode_right: Vec<String>,
    pub cycle_mode_left: Vec<String>,
    pub clear_queue: Vec<String>,
    pub repeat: Vec<String>,
    pub random: Vec<String>,
    pub single: Vec<String>,
    pub consume: Vec<String>,
    pub quit: Vec<String>,
    pub refresh: Vec<String>,
    pub switch_to_queue_menu: Vec<String>,
    pub switch_to_artists: Vec<String>,
    pub switch_to_albums: Vec<String>,
    pub seek_forward: Vec<String>,
    pub seek_backward: Vec<String>,
    pub scroll_up: Vec<String>,
    pub scroll_down: Vec<String>,
    pub play_selected: Vec<String>,
    pub remove_from_queue: Vec<String>,
    pub move_up_in_queue: Vec<String>,
    pub move_down_in_queue: Vec<String>,
    pub switch_panel_left: Vec<String>,
    pub switch_panel_right: Vec<String>,
    pub toggle_album_expansion: Vec<String>,
    pub add_to_queue: Vec<String>,
    pub scroll_up_big: Vec<String>,
    pub scroll_down_big: Vec<String>,
    pub go_to_top: Vec<String>,
    pub go_to_bottom: Vec<String>,
    pub toggle_bit_perfect: Vec<String>,
}

/// A binding of a sequence of keys to an action.
#[derive(Debug, Clone)]
pub struct SequentialKeyBinding {
    pub sequence: Vec<KeyPress>,
    pub action: MPDAction,
}

/// The key presses of a binding string: the keys of its space-separated
/// names, leaving out the names that stand for no key.
pub open spec fn parsed_keys(ws: Seq<Seq<char>>) -> Seq<KeyPress>
    decreases ws.len(),
{
    if ws.len() == 0 {
        Seq::empty()
    } else {
        let rest = parsed_keys(ws.drop_last());
        match parsed_key(ws.last()) {
            Some(k) => rest.push(k),
            None => rest,
        }
    }
}

/// The key presses of a binding string.
pub open spec fn binding_keys(s: Seq<char>) -> Seq<KeyPress> {
    parsed_keys(words(s))
}

/// What the key maps of one mode hold while they are built: the single keys
/// by number, and the sequences shared by all modes.
pub type BuildState = (Map<u64, MPDAction>, Seq<(Seq<KeyPress>, MPDAction)>);

/// Binding one string: a single key goes into the map (replacing what it
/// held), a sequence of keys is added to the sequences, nothing else counts.
pub open spec fn bind_string(st: BuildState, s: Seq<char>, a: MPDAction) -> BuildState {
    let ks = binding_keys(s);
    if ks.len() == 1 {
        (st.0.insert(key_id(ks[0]), a), st.1)
    } else if ks.len() > 1 {
        (st.0, st.1.push((ks, a)))
    } else {
        st
    }
}

/// Binding all the strings of an action, in order.
pub open spec fn bind_strings(st: BuildState, strs: Seq<Seq<char>>, a: MPDAction) -> BuildState
    decreases strs.len(),
{
    if strs.len() == 0 {
        st
    } else {
        bind_string(bind_strings(st, strs.drop_last(), a), strs.last(), a)
    }
}

/// Binding a list of (strings, action) pairs, in order.
pub open spec fn bind_group(st: BuildState, g: Seq<(Seq<Seq<char>>, MPDAction)>) -> BuildState
    decreases g.len(),
{
    if g.len() == 0 {
        st
    } else {
        let last = g.last();
        bind_strings(bind_group(st, g.drop_last()), last.0, last.1)
    }
}

/// The plain view of sequential bindings.
pub open spec fn sequences_view(v: Seq<SequentialKeyBinding>) -> Seq<(Seq<KeyPress>, MPDAction)> {
    v.map_values(|b: SequentialKeyBinding| (b.sequence@, b.action))
}

impl BindsConfig {
    /// The key press a key name stands for, such as `ctrl-k`, `shift-down`,
    /// `f5`, `space` or `-`; case does not matter, and with shift a letter
    /// is upper case. `None` for an unknown modifier or key name.
    pub fn parse_keybinding(&self, key_str: &str) -> (r: Option<KeyPress>)
        ensures
            r == parsed_key(key_str@),
    {
        let lower = to_lowercase(key_str);
        let l = chars_of(lower.as_str());
        if l.len() == 1 && l[0] == '-' {
            assert(l@ == seq!['-']);
            return Some((mods_none(), KeyCode::Char('-')));
        }
        assert(l@ != seq!['-']);
        let mut seps: Vec<char> = Vec::new();
        seps.push('-');
        assert(seps@ == seq!['-']);
        let parts = split_chars(&l, &seps);
        let ghost pv = char_views(parts@);
        let n = parts.len();
        let mut mods = mods_none();
        let mut i: usize = 0;
        assert(pv.take(0) == Seq::<Seq<char>>::empty());
        while i + 1 < n
            invariant
                n == parts@.len(),
                n >= 1,
                i + 1 <= n,
                pv == char_views(parts@),
                pv == split_by(l@, seq!['-']),
                l@ == lowercase(key_str@),
                l@ != seq!['-'],
                named_mods(pv.take(i as int)) == Some(mods),
            decreases n - i,
        {
            let part = &parts[i];
            let ghost prefix = pv.take(i + 1);
            assert(prefix.drop_last() == pv.take(i as int));
            assert(prefix.last() == part@);
            if word_is(part, "ctrl") {
                mods = KeyMods { control: true, ..mods };
            } else if word_is(part, "alt") {
                mods = KeyMods { alt: true, ..mods };
            } else if word_is(part, "shift") {
                mods = KeyMods { shift: true, ..mods };
            } else {
                assert(named_mods(prefix) is None);
                assert(pv.drop_last().take(i + 1) == prefix);
                proof {
                    lemma_named_mods_none_stays(pv.drop_last(), i + 1);
                }
                return None;
            }
            i = i + 1;
        }
        assert(pv.take(n - 1) == pv.drop_last());
        let last = &parts[n - 1];
        assert(last@ == pv.last());
        match code_of(last, mods.shift) {
            Some(c) => Some((mods, c)),
            None => None,
        }
    }

    /// The key presses of a binding string such as `g g`: each space-separated
    /// name that stands for a key, in order.
    pub fn parse_binding_string(&self, binding_str: &str) -> (r: Vec<KeyPress>)
        ensures
            r@ == binding_keys(binding_str@),
    {
        let cs = chars_of(binding_str);
        let ws = words_of(&cs);
        let ghost wv = char_views(ws@);
        let mut r: Vec<KeyPress> = Vec::new();
        let mut i: usize = 0;
        assert(wv.take(0) == Seq::<Seq<char>>::empty());
        while i < ws.len()
            invariant
                i <= ws@.len(),
                wv == char_views(ws@),
                wv == words(binding_str@),
                r@ == parsed_keys(wv.take(i as int)),
            decreases ws@.len() - i,
        {
            let ghost prefix = wv.take(i + 1);
            assert(prefix.drop_last() == wv.take(i as int));
            assert(prefix.last() == ws@[i as int]@);
            let word = string_of(ws[i].as_slice());
            match self.parse_keybinding(word.as_str()) {
                Some(k) => {
                    r.push(k);
                },
                None => {},
            }
            i = i + 1;
        }
        assert(wv.take(wv.len() as int) == wv);
        r
    }

    /// Binds the strings of one action: a single key into `single_map`, a
    /// sequence of keys onto `sequential_bindings`.
    fn add_enhanced_binding_for_action(
        &self,
        binding_strings: &Vec<String>,
        action: MPDAction,
        single_map: &mut HashMap<u64, MPDAction>,
        sequential_bindings: &mut Vec<SequentialKeyBinding>,
    )
        ensures
            (final(single_map)@, sequences_view(final(sequential_bindings)@)) == bind_strings(
                (old(single_map)@, sequences_view(old(sequential_bindings)@)),
                names(binding_strings@),
                action,
            ),
    {
        let ghost start = (single_map@, sequences_view(sequential_bindings@));
        let ghost strs = names(binding_strings@);
        let mut i: usize = 0;
        assert(strs.take(0) == Seq::<Seq<char>>::empty());
        while i < binding_strings.len()
            invariant
                i <= binding_strings@.len(),
                strs == names(binding_strings@),
                (single_map@, sequences_view(sequential_bindings@)) == bind_strings(
                    start,
                    strs.take(i as int),
                    action,
                ),
            decreases binding_strings@.len() - i,
        {
            let ghost prefix = strs.take(i + 1);
            assert(prefix.drop_last() == strs.take(i as int));
            assert(prefix.last() == binding_strings@[i as int]@);
            let key_sequence = self.parse_binding_string(binding_strings[i].as_str());
            if key_sequence.len() == 1 {
                let k = key_number(key_sequence[0]);
                single_map.insert(k, action);
            } else if key_sequence.len() > 1 {
                let ghost before = sequences_view(sequential_bindings@);
                let ks = key_sequence;
                sequential_bindings.push(SequentialKeyBinding { sequence: ks, action });
                assert(sequences_view(sequential_bindings@) =~= before.push((ks@, action)));
            }
            i = i + 1;
        }
        assert(strs.take(strs.len() as int) == strs);
    }

    /// Binds a list of (strings, action) pairs in order.
    fn add_group(
        &self,
        group: &Vec<(&Vec<String>, MPDAction)>,
        single_map: &mut HashMap<u64, MPDAction>,
        sequential_bindings: &mut Vec<SequentialKeyBinding>,
    )
        ensures
            (final(single_map)@, sequences_view(final(sequential_bindings)@)) == bind_group(
                (old(single_map)@, sequences_view(old(sequential_bindings)@)),
                group_view(group@),
            ),
    {
        let ghost start = (single_map@, sequences_view(sequential_bindings@));
        let ghost g = group_view(group@);
        let mut i: usize = 0;
        assert(g.take(0) == Seq::<(Seq<Seq<char>>, MPDAction)>::empty());
        while i < group.len()
            invariant
                i <= group@.len(),
                g == group_view(group@),
                (single_map@, sequences_view(sequential_bindings@)) == bind_group(
                    start,
                    g.take(i as int),
                ),
            decreases group@.len() - i,
        {
            let ghost prefix = g.take(i + 1);
            assert(prefix.drop_last() == g.take(i as int));
            assert(prefix.last() == (names(group@[i as int].0@), group@[i as int].1));
            let (strs, action) = group[i];
            self.add_enhanced_binding_for_action(strs, action, single_map, sequential_bindings);
            i = i + 1;
        }
        assert(g.take(g.len() as int) == g);
    }
}

/// The plain view of a list of (strings, action) pairs.
pub open spec fn group_view(g: Seq<(&Vec<String>, MPDAction)>) -> Seq<(Seq<Seq<char>>, MPDAction)> {
    g.map_values(|p: (&Vec<String>, MPDAction)| (names(p.0@), p.1))
}

/// The bindings that work in every mode, in the order they are added.
pub open spec fn global_group(b: &BindsConfig) -> Seq<(Seq<Seq<char>>, MPDAction)> {
    seq![
        (names(b.next@), MPDAction::Next),
        (names(b.previous@), MPDAction::Previous),
        (names(b.toggle_play_pause@), MPDAction::TogglePlayPause),
        (names(b.volume_up@), MPDAction::VolumeUp),
        (names(b.volume_up_fine@), MPDAction::VolumeUpFine),
        (names(b.volume_down@), MPDAction::VolumeDown),
        (names(b.volume_down_fine@), MPDAction::VolumeDownFine),
        (names(b.toggle_mute@), MPDAction::ToggleMute),
        (names(b.cycle_mode_right@), MPDAction::CycleModeRight),
        (names(b.cycle_mode_left@), MPDAction::CycleModeLeft),
        (names(b.clear_queue@), MPDAction::ClearQueue),
        (names(b.repeat@), MPDAction::Repeat),
        (names(b.random@), MPDAction::Random),
        (names(b.single@), MPDAction::Single),
        (names(b.consume@), MPDAction::Consume),
        (names(b.quit@), MPDAction::Quit),
        (names(b.refresh@), MPDAction::Refresh),
        (names(b.switch_to_queue_menu@), MPDAction::SwitchToQueueMenu),
        (names(b.switch_to_artists@), MPDAction::SwitchToArtists),
        (names(b.switch_to_albums@), MPDAction::SwitchToAlbums),
        (names(b.seek_forward@), MPDAction::SeekForward),
        (names(b.seek_backward@), MPDAction::SeekBackward),
        (names(b.toggle_bit_perfect@), MPDAction::ToggleBitPerfect),
    ]
}

/// The bindings of the queue.
pub open spec fn queue_group(b: &BindsConfig) -> Seq<(Seq<Seq<char>>, MPDAction)> {
    seq![
        (names(b.scroll_up@), MPDAction::QueueUp),
        (names(b.scroll_down@), MPDAction::QueueDown),
        (names(b.play_selected@), MPDAction::PlaySelected),
        (names(b.remove_from_queue@), MPDAction::RemoveFromQueue),
        (names(b.move_up_in_queue@), MPDAction::MoveUpInQueue),
        (names(b.move_down_in_queue@), MPDAction::MoveDownInQueue),
        (names(b.scroll_up_big@), MPDAction::ScrollUp),
        (names(b.scroll_down_big@), MPDAction::ScrollDown),
        (names(b.go_to_top@), MPDAction::GoToTop),
        (names(b.go_to_bottom@), MPDAction::GoToBottom),
    ]
}

/// The bindings of the artists view; the album expansion keys come before
/// the right-panel keys, so that a key bound to both switches the panel.
pub open spec fn artists_group(b: &BindsConfig) -> Seq<(Seq<Seq<char>>, MPDAction)> {
    seq![
        (names(b.switch_panel_left@), MPDAction::SwitchPanelLeft),
        (names(b.toggle_album_expansion@), MPDAction::ToggleAlbumExpansion),
        (names(b.switch_panel_right@), MPDAction::SwitchPanelRight),
        (names(b.scroll_up@), MPDAction::NavigateUp),
        (names(b.scroll_down@), MPDAction::NavigateDown),
        (names(b.add_to_queue@), MPDAction::AddSongToQueue),
        (names(b.scroll_up_big@), MPDAction::ScrollUp),
        (names(b.scroll_down_big@), MPDAction::ScrollDown),
        (names(b.go_to_top@), MPDAction::GoToTop),
        (names(b.go_to_bottom@), MPDAction::GoToBottom),
    ]
}

/// The bindings of the albums view.
pub open spec fn albums_group(b: &BindsConfig) -> Seq<(Seq<Seq<char>>, MPDAction)> {
    seq![
        (names(b.switch_panel_left@), MPDAction::SwitchPanelLeft),
        (names(b.switch_panel_right@), MPDAction::SwitchPanelRight),
        (names(b.scroll_up@), MPDAction::NavigateUp),
        (names(b.scroll_down@), MPDAction::NavigateDown),
        (names(b.play_selected@), MPDAction::PlaySelected),
        (names(b.add_to_queue@), MPDAction::AddSongToQueue),
        (names(b.scroll_up_big@), MPDAction::ScrollUp),
        (names(b.scroll_down_big@), MPDAction::ScrollDown),
        (names(b.go_to_top@), MPDAction::GoToTop),
        (names(b.go_to_bottom@), MPDAction::GoToBottom),
    ]
}

/// The four maps and the sequences: global bindings first, then the queue,
/// artists and albums bindings, each map starting empty and all adding to
/// one list of sequences.
pub open spec fn built_maps(b: &BindsConfig) -> (
    Map<u64, MPDAction>,
    Map<u64, MPDAction>,
    Map<u64, MPDAction>,
    Map<u64, MPDAction>,
    Seq<(Seq<KeyPress>, MPDAction)>,
) {
    let g = bind_group((Map::empty(), Seq::empty()), global_group(b));
    let q = bind_group((Map::empty(), g.1), queue_group(b));
    let ar = bind_group((Map::empty(), q.1), artists_group(b));
    let al = bind_group((Map::empty(), ar.1), albums_group(b));
    (g.0, q.0, ar.0, al.0, al.1)
}

/// The key maps built from the bindings.
pub struct KeyMaps {
    pub global_map: HashMap<u64, MPDAction>,
    pub queue_map: HashMap<u64, MPDAction>,
    pub artists_map: HashMap<u64, MPDAction>,
    pub albums_map: HashMap<u64, MPDAction>,
    pub sequential_bindings: Vec<SequentialKeyBinding>,
}

impl BindsConfig {
    /// Builds the key maps of the four binding groups, keyed by `key_number`,
    /// and the list of sequential bindings.
    pub fn build_enhanced_key_maps(&self) -> (r: KeyMaps)
        ensures
            (
                r.global_map@,
                r.queue_map@,
                r.artists_map@,
                r.albums_map@,
                sequences_view(r.sequential_bindings@),
            ) == built_maps(self),
    {
        let mut sequential_bindings: Vec<SequentialKeyBinding> = Vec::new();
        assert(sequences_view(sequential_bindings@) =~= Seq::empty());
        let mut global_map: HashMap<u64, MPDAction> = HashMap::new();
        let mut queue_map: HashMap<u64, MPDAction> = HashMap::new();
        let mut artists_map: HashMap<u64, MPDAction> = HashMap::new();
        let mut albums_map: HashMap<u64, MPDAction> = HashMap::new();
        let mut g: Vec<(&Vec<String>, MPDAction)> = Vec::new();
        g.push((&self.next, MPDAction::Next));
        g.push((&self.previous, MPDAction::Previous));
        g.push((&self.toggle_play_pause, MPDAction::TogglePlayPause));
        g.push((&self.volume_up, MPDAction::VolumeUp));
        g.push((&self.volume_up_fine, MPDAction::VolumeUpFine));
        g.push((&self.volume_down, MPDAction::VolumeDown));
        g.push((&self.volume_down_fine, MPDAction::VolumeDownFine));
        g.push((&self.toggle_mute, MPDAction::ToggleMute));
        g.push((&self.cycle_mode_right, MPDAction::CycleModeRight));
        g.push((&self.cycle_mode_left, MPDAction::CycleModeLeft));
        g.push((&self.clear_queue, MPDAction::ClearQueue));
        g.push((&self.repeat, MPDAction::Repeat));
        g.push((&self.random, MPDAction::Random));
        g.push((&self.single, MPDAction::Single));
        g.push((&self.consume, MPDAction::Consume));
        g.push((&self.quit, MPDAction::Quit));
        g.push((&self.refresh, MPDAction::Refresh));
        g.push((&self.switch_to_queue_menu, MPDAction::SwitchToQueueMenu));
        g.push((&self.switch_to_artists, MPDAction::SwitchToArtists));
        g.push((&self.switch_to_albums, MPDAction::SwitchToAlbums));
        g.push((&self.seek_forward, MPDAction::SeekForward));
        g.push((&self.seek_backward, MPDAction::SeekBackward));
        g.push((&self.toggle_bit_perfect, MPDAction::ToggleBitPerfect));
        assert(group_view(g@) =~= global_group(self));
        self.add_group(&g, &mut global_map, &mut sequential_bindings);
        let mut q: Vec<(&Vec<String>, MPDAction)> = Vec::new();
        q.push((&self.scroll_up, MPDAction::QueueUp));
        q.push((&self.scroll_down, MPDAction::QueueDown));
        q.push((&self.play_selected, MPDAction::PlaySelected));
        q.push((&self.remove_from_queue, MPDAction::RemoveFromQueue));
        q.push((&self.move_up_in_queue, MPDAction::MoveUpInQueue));
        q.push((&self.move_down_in_queue, MPDAction::MoveDownInQueue));
        q.push((&self.scroll_up_big, MPDAction::ScrollUp));
        q.push((&self.scroll_down_big, MPDAction::ScrollDown));
        q.push((&self.go_to_top, MPDAction::GoToTop));
        q.push((&self.go_to_bottom, MPDAction::GoToBottom));
        assert(group_view(q@) =~= queue_group(self));
        self.add_group(&q, &mut queue_map, &mut sequential_bindings);
        let mut ar: Vec<(&Vec<String>, MPDAction)> = Vec::new();
        ar.push((&self.switch_panel_left, MPDAction::SwitchPanelLeft));
        ar.push((&self.toggle_album_expansion, MPDAction::ToggleAlbumExpansion));
        ar.push((&self.switch_panel_right, MPDAction::SwitchPanelRight));
        ar.push((&self.scroll_up, MPDAction::NavigateUp));
        ar.push((&self.scroll_down, MPDAction::NavigateDown));
        ar.push((&self.add_to_queue, MPDAction::AddSongToQueue));
        ar.push((&self.scroll_up_big, MPDAction::ScrollUp));
        ar.push((&self.scroll_down_big, MPDAction::ScrollDown));
        ar.push((&self.go_to_top, MPDAction::GoToTop));
        ar.push((&self.go_to_bottom, MPDAction::GoToBottom));
        assert(group_view(ar@) =~= artists_group(self));
        self.add_group(&ar, &mut artists_map, &mut sequential_bindings);
        let mut al: Vec<(&Vec<String>, MPDAction)> = Vec::new();
        al.push((&self.switch_panel_left, MPDAction::SwitchPanelLeft));
        al.push((&self.switch_panel_right, MPDAction::SwitchPanelRight));
        al.push((&self.scroll_up, MPDAction::NavigateUp));
        al.push((&self.scroll_down, MPDAction::NavigateDown));
        al.push((&self.play_selected, MPDAction::PlaySelected));
        al.push((&self.add_to_queue, MPDAction::AddSongToQueue));
        al.push((&self.scroll_up_big, MPDAction::ScrollUp));
        al.push((&self.scroll_down_big, MPDAction::ScrollDown));
        al.push((&self.go_to_top, MPDAction::GoToTop));
        al.push((&self.go_to_bottom, MPDAction::GoToBottom));
        assert(group_view(al@) =~= albums_group(self));
        self.add_group(&al, &mut albums_map, &mut sequential_bindings);
        KeyMaps { global_map, queue_map, artists_map, albums_map, sequential_bindings }
    }
}

fn strings1(a: &str) -> (r: Vec<String>)
    ensures
        names(r@) == seq![a@],
{
    let mut r: Vec<String> = Vec::new();
    r.push(a.to_owned());
    assert(names(r@) =~= seq![a@]);
    r
}

fn strings2(a: &str, b: &str) -> (r: Vec<String>)
    ensures
        names(r@) == seq![a@, b@],
{
    let mut r: Vec<String> = Vec::new();
    r.push(a.to_owned());
    r.push(b.to_owned());
    assert(names(r@) =~= seq![a@, b@]);
    r
}

fn strings3(a: &str, b: &str, c: &str) -> (r: Vec<String>)
    ensures
        names(r@) == seq![a@, b@, c@],
{
    let mut r: Vec<String> = Vec::new();
    r.push(a.to_owned());
    r.push(b.to_owned());
    r.push(c.to_owned());
    assert(names(r@) =~= seq![a@, b@, c@]);
    r
}

impl BindsConfig {
    /// The bindings of a default configuration.
    pub open spec fn is_default(&self) -> bool {
        &&& names(self.next@) == seq![">"@, "shift-j"@, "shift-down"@]
        &&& names(self.previous@) == seq!["<"@, "shift-k"@, "shift-up"@]
        &&& names(self.toggle_play_pause@) == seq![" "@, "p"@]
        &&& names(self.volume_up@) == seq!["="@]
        &&& names(self.volume_up_fine@) == seq!["+"@]
        &&& names(self.volume_down@) == seq!["-"@]
        &&& names(self.volume_down_fine@) == seq!["_"@]
        &&& names(self.toggle_mute@) == seq!["m"@]
        &&& names(self.cycle_mode_right@) == seq!["ctrl-l"@, "ctrl-right"@]
        &&& names(self.cycle_mode_left@) == seq!["ctrl-h"@, "ctrl-left"@]
        &&& names(self.clear_queue@) == seq!["d"@]
        &&& names(self.repeat@) == seq!["r"@]
        &&& names(self.random@) == seq!["z"@]
        &&& names(self.single@) == seq!["s"@]
        &&& names(self.consume@) == seq!["c"@]
        &&& names(self.quit@) == seq!["esc"@, "q"@, "ctrl-c"@]
        &&& names(self.refresh@) == seq!["u"@]
        &&& names(self.switch_to_queue_menu@) == seq!["1"@]
        &&& names(self.switch_to_artists@) == seq!["2"@]
        &&& names(self.switch_to_albums@) == seq!["3"@]
        &&& names(self.seek_forward@) == seq!["shift-l"@, "shift-right"@]
        &&& names(self.seek_backward@) == seq!["shift-h"@, "shift-left"@]
        &&& names(self.scroll_up@) == seq!["k"@, "up"@]
        &&& names(self.scroll_down@) == seq!["j"@, "down"@]
        &&& names(self.play_selected@) == seq!["enter"@, "l"@, "right"@]
        &&& names(self.remove_from_queue@) == seq!["x"@, "backspace"@]
        &&& names(self.move_up_in_queue@) == seq!["ctrl-k"@, "ctrl-up"@]
        &&& names(self.move_down_in_queue@) == seq!["ctrl-j"@, "ctrl-down"@]
        &&& names(self.switch_panel_left@) == seq!["h"@, "left"@]
        &&& names(self.switch_panel_right@) == seq!["l"@, "right"@]
        &&& names(self.toggle_album_expansion@) == seq!["l"@, "right"@]
        &&& names(self.add_to_queue@) == seq!["a"@, "enter"@]
        &&& names(self.scroll_up_big@) == seq!["ctrl-u"@]
        &&& names(self.scroll_down_big@) == seq!["ctrl-d"@]
        &&& names(self.go_to_top@) == seq!["g g"@]
        &&& names(self.go_to_bottom@) == seq!["shift-g"@]
        &&& names(self.toggle_bit_perfect@) == seq!["b"@]
    }
}

impl Default for BindsConfig {
    fn default() -> (r: Self)
        ensures
            r.is_default(),
    {
        BindsConfig {
            next: strings3(">", "shift-j", "shift-down"),
            previous: strings3("<", "shift-k", "shift-up"),
            toggle_play_pause: strings2(" ", "p"),
            volume_up: strings1("="),
            volume_up_fine: strings1("+"),
            volume_down: strings1("-"),
            volume_down_fine: strings1("_"),
            toggle_mute: strings1("m"),
            cycle_mode_right: strings2("ctrl-l", "ctrl-right"),
            cycle_mode_left: strings2("ctrl-h", "ctrl-left"),
            clear_queue: strings1("d"),
            repeat: strings1("r"),
            random: strings1("z"),
            single: strings1("s"),
            consume: strings1("c"),
            quit: strings3("esc", "q", "ctrl-c"),
            refresh: strings1("u"),
            switch_to_queue_menu: strings1("1"),
            switch_to_artists: strings1("2"),
            switch_to_albums: strings1("3"),
            seek_forward: strings2("shift-l", "shift-right"),
            seek_backward: strings2("shift-h", "shift-left"),
            scroll_up: strings2("k", "up"),
            scroll_down: strings2("j", "down"),
            play_selected: strings3("enter", "l", "right"),
            remove_from_queue: strings2("x", "backspace"),
            move_up_in_queue: strings2("ctrl-k", "ctrl-up"),
            move_down_in_queue: strings2("ctrl-j", "ctrl-down"),
            switch_panel_left: strings2("h", "left"),
            switch_panel_right: strings2("l", "right"),
            toggle_album_expansion: strings2("l", "right"),
            add_to_queue: strings2("a", "enter"),
            scroll_up_big: strings1("ctrl-u"),
            scroll_down_big: strings1("ctrl-d"),
            go_to_top: strings1("g g"),
            go_to_bottom: strings1("shift-g"),
            toggle_bit_perfect: strings1("b"),
        }
    }
}

proof fn lemma_named_mods_none_stays(parts: Seq<Seq<char>>, k: int)
    requires
        0 <= k <= parts.len(),
        named_mods(parts.take(k)) is None,
    ensures
        named_mods(parts) is None,
    decreases parts.len() - k,
{
    if k < parts.len() {
        assert(parts.take(k + 1).drop_last() == parts.take(k));
        lemma_named_mods_none_stays(parts, k + 1);
    } else {
        assert(parts.take(k) == parts);
    }
}

} // verus!
