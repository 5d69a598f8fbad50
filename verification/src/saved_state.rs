//! The state kept between runs: whether bit-perfect mode was on, in a
//! small text file of `key = value` lines.

use vstd::prelude::*;
use crate::scan::{
    char_views, lemma_split_append, lemma_split_plain, lines, lines_of, split_by, split_chars,
    trim, trim_chars,
};
use crate::text::{chars_eq, chars_of, push_str};

verus! {

/// `s` begins with `p`.
pub open spec fn has_prefix(s: Seq<char>, p: Seq<char>) -> bool {
    p.len() <= s.len() && s.take(p.len() as int) == p
}

/// The first line that begins with `p`.
pub open spec fn first_with_prefix(ls: Seq<Seq<char>>, p: Seq<char>) -> Option<Seq<char>>
    decreases ls.len(),
{
    if ls.len() == 0 {
        None
    } else {
        match first_with_prefix(ls.drop_last(), p) {
            Some(l) => Some(l),
            None => if has_prefix(ls.last(), p) {
                Some(ls.last())
            } else {
                None
            },
        }
    }
}

/// The saved setting: the first line that begins with `bit_perfect` holds
/// it after its first `=`, and it is on when that reads `true` once
/// trimmed; anything else (no such line, no `=`) means off.
pub open spec fn saved_bit_perfect(contents: Seq<char>) -> bool {
    match first_with_prefix(lines(contents), "bit_perfect"@) {
        Some(l) => {
            let parts = split_by(l, seq!['=']);
            parts.len() > 1 && trim(parts[1]) == "true"@
        },
        None => false,
    }
}

/// The text of the state file for a setting.
pub open spec fn state_text(enabled: bool) -> Seq<char> {
    "bit_perfect = "@ + (if enabled {
        "true"@
    } else {
        "false"@
    }) + "\n"@
}

fn starts_with_chars(s: &Vec<char>, p: &Vec<char>) -> (r: bool)
    ensures
        r == has_prefix(s@, p@),
{
    if p.len() > s.len() {
        return false;
    }
    let mut i: usize = 0;
    while i < p.len()
        invariant
            i <= p@.len() <= s@.len(),
            forall|j: int| 0 <= j < i ==> s@[j] == p@[j],
        decreases p.len() - i,
    {
        if s[i] != p[i] {
            assert(s@.take(p@.len() as int)[i as int] != p@[i as int]);
            return false;
        }
        i = i + 1;
    }
    assert(s@.take(p@.len() as int) =~= p@);
    true
}

proof fn lemma_first_with_prefix_step(ls: Seq<Seq<char>>, p: Seq<char>, i: int)
    requires
        0 <= i < ls.len(),
        first_with_prefix(ls.take(i), p) is None,
    ensures
        first_with_prefix(ls.take(i + 1), p) == (if has_prefix(ls[i], p) {
            Some(ls[i])
        } else {
            None
        }),
{
    assert(ls.take(i + 1).drop_last() == ls.take(i));
}

proof fn lemma_first_with_prefix_prefix(ls: Seq<Seq<char>>, p: Seq<char>, k: int)
    requires
        0 <= k <= ls.len(),
        first_with_prefix(ls.take(k), p) is Some,
    ensures
        first_with_prefix(ls, p) == first_with_prefix(ls.take(k), p),
    decreases ls.len() - k,
{
    if k < ls.len() {
        assert(ls.take(k + 1).drop_last() == ls.take(k));
        lemma_first_with_prefix_prefix(ls, p, k + 1);
    } else {
        assert(ls.take(k) == ls);
    }
}

/// Reads the bit-perfect setting from the contents of the state file.
pub fn parse_bit_perfect_state(contents: &str) -> (r: bool)
    ensures
        r == saved_bit_perfect(contents@),
{
    let cs = chars_of(contents);
    let ls = lines_of(&cs);
    let key = chars_of("bit_perfect");
    let ghost lv = char_views(ls@);
    let mut i: usize = 0;
    while i < ls.len()
        invariant
            i <= ls@.len(),
            lv == char_views(ls@),
            lv == lines(contents@),
            key@ == "bit_perfect"@,
            first_with_prefix(lv.take(i as int), "bit_perfect"@) is None,
        decreases ls.len() - i,
    {
        proof {
            lemma_first_with_prefix_step(lv, "bit_perfect"@, i as int);
        }
        assert(lv[i as int] == ls@[i as int]@);
        if starts_with_chars(&ls[i], &key) {
            proof {
                lemma_first_with_prefix_prefix(lv, "bit_perfect"@, i as int + 1);
            }
            let mut seps: Vec<char> = Vec::new();
            seps.push('=');
            assert(seps@ == seq!['=']);
            let parts = split_chars(&ls[i], &seps);
            let ghost pv = char_views(parts@);
            if parts.len() > 1 {
                assert(pv[1] == parts@[1]@);
                let value = trim_chars(&parts[1]);
                let t = chars_of("true");
                return chars_eq(&value, &t);
            } else {
                return false;
            }
        }
        i = i + 1;
    }
    assert(lv.take(i as int) == lv);
    false
}

/// The saved setting, given the contents of the state file when it could
/// be read: off when there is no file.
pub fn load_bit_perfect_state(contents: Option<&str>) -> (r: bool)
    ensures
        r == match contents {
            Some(c) => saved_bit_perfect(c@),
            None => false,
        },
{
    match contents {
        Some(c) => parse_bit_perfect_state(c),
        None => false,
    }
}

/// The contents of the state file for a setting.
pub fn bit_perfect_state_text(enabled: bool) -> (r: String)
    ensures
        r@ == state_text(enabled),
{
    let mut r = String::new();
    push_str(&mut r, "bit_perfect = ");
    if enabled {
        push_str(&mut r, "true");
    } else {
        push_str(&mut r, "false");
    }
    push_str(&mut r, "\n");
    r
}

/// What is saved is read back: the state file written for a setting reads
/// as that setting.
pub proof fn lemma_state_round_trip(enabled: bool)
    ensures
        saved_bit_perfect(state_text(enabled)) == enabled,
{
    reveal_strlit("bit_perfect = ");
    reveal_strlit("bit_perfect");
    reveal_strlit("true");
    reveal_strlit("false");
    reveal_strlit("\n");
    let v: Seq<char> = if enabled {
        "true"@
    } else {
        "false"@
    };
    let line = "bit_perfect = "@ + v;
    let text = state_text(enabled);
    assert(text == line.push('\n') + Seq::<char>::empty());
    assert(seq!['\n'][0] == '\n');
    lemma_split_append(line, '\n', Seq::<char>::empty(), seq!['\n']);
    lemma_split_plain(line, seq!['\n']);
    lemma_split_plain(Seq::<char>::empty(), seq!['\n']);
    let ps = split_by(text, seq!['\n']);
    assert(ps == seq![line, Seq::<char>::empty()]);
    assert(lines(text) =~= seq![line]);
    assert(has_prefix(line, "bit_perfect"@)) by {
        assert(line.take(11) =~= "bit_perfect"@);
    }
    assert(seq![line].drop_last() =~= Seq::<Seq<char>>::empty());
    assert(seq![line].last() == line);
    assert(first_with_prefix(Seq::<Seq<char>>::empty(), "bit_perfect"@) is None);
    assert(first_with_prefix(seq![line], "bit_perfect"@) == Some(line));
    let head: Seq<char> = "bit_perfect "@;
    reveal_strlit("bit_perfect ");
    let tail = seq![' '] + v;
    assert(line =~= head.push('=') + tail);
    assert(seq!['='][0] == '=');
    lemma_split_append(head, '=', tail, seq!['=']);
    lemma_split_plain(head, seq!['=']);
    lemma_split_plain(tail, seq!['=']);
    let parts = split_by(line, seq!['=']);
    assert(parts =~= seq![head, tail]);
    assert(tail.drop_first() =~= v);
    assert(trim(tail) == v) by {
        crate::scan::lemma_trim_plain(tail, v);
    }
}

} // verus!
