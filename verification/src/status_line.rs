//! The texts of the status line: the message about a database update and
//! the keys typed so far of a key sequence.

use std::time::Instant;
use vstd::prelude::*;
use crate::clock::elapsed_millis;
use crate::keybinds::KeyBinds;
use crate::keymap::{KeyCode, KeyPress};
use crate::session::MessageType;
use crate::text::{decimal, push_char, push_decimal, push_str};

verus! {

/// A message of the status line and when it appeared.
#[derive(Debug)]
pub struct StatusMessage {
    /// The text of an error message.
    pub text: String,
    pub created_at: Instant,
    pub message_type: MessageType,
}

/// The text shown for a message `elapsed_ms` milliseconds after it
/// appeared: an update under way shows one to three dots, a new one each
/// half second; a finished one "Updated!"; an error its own text.
pub open spec fn status_text(kind: MessageType, elapsed_ms: u64, text: Seq<char>) -> Seq<char> {
    match kind {
        MessageType::InProgress => {
            let frame = (elapsed_ms / 500) % 3;
            if frame == 0 {
                "Updating.  "@
            } else if frame == 1 {
                "Updating.. "@
            } else {
                "Updating..."@
            }
        },
        MessageType::Success => "Updated!  "@,
        MessageType::Error => text,
    }
}

/// The text of a message of the given kind, `elapsed_ms` after it appeared.
pub fn status_text_at(kind: MessageType, elapsed_ms: u64, text: &str) -> (r: String)
    ensures
        r@ == status_text(kind, elapsed_ms, text@),
{
    let mut r = String::new();
    match kind {
        MessageType::InProgress => {
            let frame = (elapsed_ms / 500) % 3;
            if frame == 0 {
                push_str(&mut r, "Updating.  ");
            } else if frame == 1 {
                push_str(&mut r, "Updating.. ");
            } else {
                push_str(&mut r, "Updating...");
            }
        },
        MessageType::Success => push_str(&mut r, "Updated!  "),
        MessageType::Error => push_str(&mut r, text),
    }
    r
}

/// The text of a message now. An update under way shows as many dots as
/// the clock says; the other kinds do not depend on it.
pub fn get_status_message_text(msg: &StatusMessage) -> (r: Option<String>)
    ensures
        r matches Some(t) && exists|e: u64| t@ == status_text(msg.message_type, e, msg.text@),
        msg.message_type != MessageType::InProgress ==> (r matches Some(t) && t@ == status_text(
            msg.message_type,
            0,
            msg.text@,
        )),
{
    let elapsed = elapsed_millis(&msg.created_at);
    let ms: u64 = #[verifier::truncate] (elapsed as u64);
    let t = status_text_at(msg.message_type, ms, msg.text.as_str());
    Some(t)
}

/// How long a finished or failed update's message stays, in milliseconds.
pub const MESSAGE_LIFETIME_MS: u128 = 3000;

/// A message goes away once more than `MESSAGE_LIFETIME_MS` milliseconds
/// have passed since it appeared, unless it reports an update under way.
pub open spec fn message_expired(kind: MessageType, elapsed_ms: u128) -> bool {
    !(kind is InProgress) && elapsed_ms > MESSAGE_LIFETIME_MS
}

/// Whether a message of the given kind has expired `elapsed_ms`
/// milliseconds after it appeared.
pub fn is_message_expired(kind: MessageType, elapsed_ms: u128) -> (r: bool)
    ensures
        r == message_expired(kind, elapsed_ms),
{
    match kind {
        MessageType::InProgress => false,
        _ => elapsed_ms > MESSAGE_LIFETIME_MS,
    }
}

/// Whether a message has expired now; the elapsed time comes from the
/// clock, so only the rule's kind part is stated.
pub fn status_message_expired(msg: &StatusMessage) -> (r: bool)
    ensures
        msg.message_type is InProgress ==> !r,
        r ==> exists|e: u128| message_expired(msg.message_type, e),
{
    let elapsed = elapsed_millis(&msg.created_at);
    is_message_expired(msg.message_type, elapsed)
}

/// How a key is shown: its character, its name, an arrow, or `F` and its
/// number; a key without a name of its own (no binding can hold one) shows
/// as `Other`.
pub open spec fn key_label(k: KeyCode) -> Seq<char> {
    match k {
        KeyCode::Char(c) => seq![c],
        KeyCode::Esc => "Esc"@,
        KeyCode::Enter => "Enter"@,
        KeyCode::Backspace => "Backspace"@,
        KeyCode::Tab => "Tab"@,
        KeyCode::BackTab => "BackTab"@,
        KeyCode::Delete => "Delete"@,
        KeyCode::Insert => "Insert"@,
        KeyCode::Home => "Home"@,
        KeyCode::End => "End"@,
        KeyCode::PageUp => "PageUp"@,
        KeyCode::PageDown => "PageDown"@,
        KeyCode::Up => "↑"@,
        KeyCode::Down => "↓"@,
        KeyCode::Left => "←"@,
        KeyCode::Right => "→"@,
        KeyCode::F(n) => "F"@ + decimal(n as nat),
        KeyCode::Other => "Other"@,
    }
}

/// How a key press is shown: `Ctrl+`, `Alt+` and `Shift+` before the key,
/// for the modifiers held.
pub open spec fn press_label(p: KeyPress) -> Seq<char> {
    (if p.0.control {
        "Ctrl+"@
    } else {
        Seq::empty()
    }) + (if p.0.alt {
        "Alt+"@
    } else {
        Seq::empty()
    }) + (if p.0.shift {
        "Shift+"@
    } else {
        Seq::empty()
    }) + key_label(p.1)
}

/// The key presses shown one after the other, with arrows between.
pub open spec fn sequence_label(s: Seq<KeyPress>) -> Seq<char>
    decreases s.len(),
{
    if s.len() == 0 {
        Seq::empty()
    } else if s.len() == 1 {
        press_label(s[0])
    } else {
        sequence_label(s.drop_last()) + " → "@ + press_label(s.last())
    }
}

fn push_key(r: &mut String, k: KeyCode)
    ensures
        final(r)@ == old(r)@ + key_label(k),
{
    match k {
        KeyCode::Char(c) => {
            push_char(r, c);
            assert(old(r)@.push(c) == old(r)@ + seq![c]);
        },
        KeyCode::Esc => push_str(r, "Esc"),
        KeyCode::Enter => push_str(r, "Enter"),
        KeyCode::Backspace => push_str(r, "Backspace"),
        KeyCode::Tab => push_str(r, "Tab"),
        KeyCode::BackTab => push_str(r, "BackTab"),
        KeyCode::Delete => push_str(r, "Delete"),
        KeyCode::Insert => push_str(r, "Insert"),
        KeyCode::Home => push_str(r, "Home"),
        KeyCode::End => push_str(r, "End"),
        KeyCode::PageUp => push_str(r, "PageUp"),
        KeyCode::PageDown => push_str(r, "PageDown"),
        KeyCode::Up => push_str(r, "↑"),
        KeyCode::Down => push_str(r, "↓"),
        KeyCode::Left => push_str(r, "←"),
        KeyCode::Right => push_str(r, "→"),
        KeyCode::F(n) => {
            push_str(r, "F");
            push_decimal(r, n as u64);
            assert(r@ == old(r)@ + ("F"@ + decimal(n as nat)));
        },
        KeyCode::Other => push_str(r, "Other"),
    }
}

fn push_press(r: &mut String, p: KeyPress)
    ensures
        final(r)@ == old(r)@ + press_label(p),
{
    let ghost start = r@;
    if p.0.control {
        push_str(r, "Ctrl+");
    }
    if p.0.alt {
        push_str(r, "Alt+");
    }
    if p.0.shift {
        push_str(r, "Shift+");
    }
    push_key(r, p.1);
    assert(r@ =~= start + press_label(p));
}

/// The keys of a sequence typed so far, as the status line shows them.
pub fn sequence_text(s: &Vec<KeyPress>) -> (r: String)
    ensures
        r@ == sequence_label(s@),
{
    let mut r = String::new();
    let mut i: usize = 0;
    while i < s.len()
        invariant
            i <= s@.len(),
            r@ == sequence_label(s@.take(i as int)),
        decreases s.len() - i,
    {
        let ghost before = r@;
        assert(s@.take(i as int + 1).drop_last() == s@.take(i as int));
        assert(s@.take(i as int + 1).last() == s@[i as int]);
        if i > 0 {
            push_str(&mut r, " → ");
        }
        push_press(&mut r, s[i]);
        proof {
            if i == 0 {
                assert(before == Seq::<char>::empty());
                assert(r@ =~= press_label(s@[0]));
                assert(s@.take(1)[0] == s@[0]);
            } else {
                assert(r@ =~= before + " → "@ + press_label(s@[i as int]));
            }
        }
        i = i + 1;
    }
    assert(s@.take(i as int) == s@);
    r
}

/// The keys typed so far of a key sequence; `None` when none is under way
/// or it holds no key yet.
pub fn get_key_sequence_text(key_binds: &KeyBinds) -> (r: Option<String>)
    ensures
        ({
            let s = match key_binds.pending() {
                Some(s) => s,
                None => Seq::empty(),
            };
            &&& s.len() == 0 ==> r is None
            &&& s.len() > 0 ==> (r matches Some(t) && t@ == sequence_label(s))
        }),
{
    let sequence = key_binds.get_current_sequence();
    if sequence.len() == 0 {
        return None;
    }
    Some(sequence_text(&sequence))
}

} // verus!
