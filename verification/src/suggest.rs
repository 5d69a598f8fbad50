//! "Did you mean" suggestions for misspelled configuration names.

use vstd::prelude::*;
use crate::casing::{lowercase, to_lowercase};
use crate::text::{chars_of, push_str, str_eq};
use vstd::utf8::encode_utf8;

verus! {

/// The smaller of two naturals.
pub open spec fn min_nat(x: nat, y: nat) -> nat {
    if x <= y {
        x
    } else {
        y
    }
}

/// The edit distance of two character sequences: the fewest single-character
/// insertions, deletions and substitutions that turn `a` into `b`.
pub open spec fn edit_distance(a: Seq<char>, b: Seq<char>) -> nat
    decreases a.len() + b.len(),
{
    if a.len() == 0 {
        b.len()
    } else if b.len() == 0 {
        a.len()
    } else {
        let cost: nat = if a.last() == b.last() {
            0
        } else {
            1
        };
        min_nat(
            min_nat(
                edit_distance(a.drop_last(), b) + 1,
                edit_distance(a, b.drop_last()) + 1,
            ),
            edit_distance(a.drop_last(), b.drop_last()) + cost,
        )
    }
}

/// The edit distance is at most the length of the longer sequence.
pub proof fn lemma_edit_distance_bounded(a: Seq<char>, b: Seq<char>)
    ensures
        edit_distance(a, b) <= a.len() || edit_distance(a, b) <= b.len(),
        edit_distance(a, b) <= a.len() + b.len(),
        a.len() <= b.len() ==> edit_distance(a, b) <= b.len(),
        b.len() <= a.len() ==> edit_distance(a, b) <= a.len(),
    decreases a.len() + b.len(),
{
    if a.len() > 0 && b.len() > 0 {
        lemma_edit_distance_bounded(a.drop_last(), b.drop_last());
        lemma_edit_distance_bounded(a.drop_last(), b);
        lemma_edit_distance_bounded(a, b.drop_last());
    }
}

fn min_usize(x: usize, y: usize) -> (r: usize)
    ensures
        r == min_nat(x as nat, y as nat),
{
    if x <= y {
        x
    } else {
        y
    }
}

/// The edit distance of the characters of `a` and `b`, computed one row of
/// the distance table at a time.
pub fn levenshtein_distance(a: &str, b: &str) -> (r: usize)
    ensures
        r == edit_distance(a@, b@),
{
    let a_chars = chars_of(a);
    let b_chars = chars_of(b);
    let a_len = a_chars.len();
    let b_len = b_chars.len();
    if a_len == 0 {
        return b_len;
    }
    if b_len == 0 {
        return a_len;
    }
    let ghost sa = a_chars@;
    let ghost sb = b_chars@;
    let mut prev_row: Vec<usize> = Vec::new();
    let mut j: usize = 0;
    while j < b_len
        invariant
            j <= b_len,
            b_len == sb.len(),
            prev_row@.len() == j,
            forall|k: int| 0 <= k < j ==> prev_row@[k] == k,
        decreases b_len - j,
    {
        prev_row.push(j);
        j = j + 1;
    }
    prev_row.push(b_len);
    assert(prev_row.len() == b_len + 1);
    let mut curr_row: Vec<usize> = Vec::new();
    let mut k: usize = 0;
    while k <= b_len
        invariant
            k <= b_len + 1,
            b_len < usize::MAX,
            curr_row@.len() == k,
        decreases b_len + 1 - k,
    {
        curr_row.push(0);
        k = k + 1;
    }
    assert forall|k: int| 0 <= k <= b_len implies prev_row@[k] == edit_distance(
        sa.take(0),
        sb.take(k),
    ) by {
        assert(sa.take(0).len() == 0);
    }
    let mut i: usize = 0;
    while i < a_len
        invariant
            i <= a_len,
            a_len == sa.len(),
            b_len == sb.len(),
            b_len < usize::MAX,
            a_chars@ == sa,
            b_chars@ == sb,
            prev_row@.len() == b_len + 1,
            curr_row@.len() == b_len + 1,
            forall|k: int|
                0 <= k <= b_len ==> #[trigger] prev_row@[k] == edit_distance(
                    sa.take(i as int),
                    sb.take(k),
                ),
        decreases a_len - i,
    {
        let ghost ra = sa.take(i + 1);
        assert(ra.drop_last() == sa.take(i as int));
        assert(ra.last() == sa[i as int]);
        curr_row.set(0, i + 1);
        assert(sb.take(0).len() == 0);
        let mut j: usize = 0;
        while j < b_len
            invariant
                i < a_len,
                j <= b_len,
                a_len == sa.len(),
                b_len == sb.len(),
                b_len < usize::MAX,
                a_chars@ == sa,
                b_chars@ == sb,
                ra == sa.take(i + 1),
                ra.drop_last() == sa.take(i as int),
                ra.last() == sa[i as int],
                prev_row@.len() == b_len + 1,
                curr_row@.len() == b_len + 1,
                forall|k: int|
                    0 <= k <= b_len ==> #[trigger] prev_row@[k] == edit_distance(
                        sa.take(i as int),
                        sb.take(k),
                    ),
                forall|k: int| 0 <= k <= j ==> #[trigger] curr_row@[k] == edit_distance(ra, sb.take(k)),
            decreases b_len - j,
        {
            let ghost rb = sb.take(j + 1);
            assert(rb.drop_last() == sb.take(j as int));
            assert(rb.last() == sb[j as int]);
            let cost: usize = if a_chars[i] == b_chars[j] {
                0
            } else {
                1
            };
            proof {
                lemma_edit_distance_bounded(sa.take(i as int), sb.take(j + 1));
                lemma_edit_distance_bounded(sa.take(i as int), sb.take(j as int));
            }
            let m = min_usize(prev_row[j + 1], curr_row[j]);
            let v = min_usize(m + 1, prev_row[j] + cost);
            assert(v == edit_distance(ra, rb));
            curr_row.set(j + 1, v);
            j = j + 1;
        }
        std::mem::swap(&mut prev_row, &mut curr_row);
        i = i + 1;
    }
    assert(sa.take(a_len as int) == sa);
    assert(sb.take(b_len as int) == sb);
    prev_row[b_len]
}

/// The length in bytes of the UTF-8 encoding of a string, as `str::len` gives it.
pub open spec fn byte_len(s: Seq<char>) -> nat {
    (encode_utf8(s).len() as usize) as nat
}

/// How far a name may be from a candidate to be suggested: half the byte
/// length of the longer of the two, but at least three edits.
pub open spec fn threshold(unknown: Seq<char>, candidate: Seq<char>) -> nat {
    let longer = if byte_len(unknown) >= byte_len(candidate) {
        byte_len(unknown)
    } else {
        byte_len(candidate)
    };
    if longer / 2 >= 3 {
        longer / 2
    } else {
        3
    }
}

/// The distance of two names, compared without regard to case.
pub open spec fn name_distance(unknown: Seq<char>, candidate: Seq<char>) -> nat {
    edit_distance(lowercase(unknown), lowercase(candidate))
}

/// The candidate is close enough to the name to be suggested.
pub open spec fn is_close(unknown: Seq<char>, candidate: Seq<char>) -> bool {
    name_distance(unknown, candidate) <= threshold(unknown, candidate)
}

/// The views of a sequence of string slices.
pub open spec fn str_views(cs: Seq<&str>) -> Seq<Seq<char>> {
    cs.map_values(|c: &str| c@)
}

/// The best suggestion among the candidates: the index and distance of the
/// first close candidate at the smallest distance, if any is close.
pub open spec fn best_match(unknown: Seq<char>, cs: Seq<Seq<char>>) -> Option<(int, nat)>
    decreases cs.len(),
{
    if cs.len() == 0 {
        None
    } else {
        let prev = best_match(unknown, cs.drop_last());
        let c = cs.last();
        let d = name_distance(unknown, c);
        if is_close(unknown, c) {
            match prev {
                Some(p) => if d < p.1 {
                    Some(((cs.len() - 1) as int, d))
                } else {
                    prev
                },
                None => Some(((cs.len() - 1) as int, d)),
            }
        } else {
            prev
        }
    }
}

/// The suggested name for `unknown` among `cs`.
pub open spec fn suggestion(unknown: Seq<char>, cs: Seq<Seq<char>>) -> Option<Seq<char>> {
    match best_match(unknown, cs) {
        Some(p) => Some(cs[p.0]),
        None => None,
    }
}

proof fn lemma_best_match_in_range(unknown: Seq<char>, cs: Seq<Seq<char>>)
    ensures
        best_match(unknown, cs) matches Some(p) ==> 0 <= p.0 < cs.len() && p.1 == name_distance(
            unknown,
            cs[p.0],
        ),
    decreases cs.len(),
{
    if cs.len() > 0 {
        lemma_best_match_in_range(unknown, cs.drop_last());
    }
}

/// The candidate most similar to `unknown`, when one is close enough: the
/// first candidate at the smallest case-insensitive edit distance, among
/// those within the threshold.
pub fn find_similar(unknown: &str, candidates: &[&str]) -> (r: Option<String>)
    ensures
        match r {
            Some(s) => suggestion(unknown@, str_views(candidates@)) == Some(s@),
            None => suggestion(unknown@, str_views(candidates@)) is None,
        },
{
    let ghost cs = str_views(candidates@);
    let unknown_lower = to_lowercase(unknown);
    let mut best: Option<(usize, usize)> = None;
    let mut idx: usize = 0;
    while idx < candidates.len()
        invariant
            idx <= candidates@.len(),
            cs == str_views(candidates@),
            unknown_lower@ == lowercase(unknown@),
            match best {
                Some(p) => best_match(unknown@, cs.take(idx as int)) == Some(
                    (p.0 as int, p.1 as nat),
                ),
                None => best_match(unknown@, cs.take(idx as int)) is None,
            },
        decreases candidates@.len() - idx,
    {
        let candidate: &str = candidates[idx];
        let ghost prefix = cs.take(idx + 1);
        assert(prefix.drop_last() == cs.take(idx as int));
        assert(prefix.last() == candidate@);
        let candidate_lower = to_lowercase(candidate);
        let distance = levenshtein_distance(unknown_lower.as_str(), candidate_lower.as_str());
        let unknown_bytes = unknown.len();
        let candidate_bytes = candidate.len();
        let longer = if unknown_bytes >= candidate_bytes {
            unknown_bytes
        } else {
            candidate_bytes
        };
        let half = longer / 2;
        let limit = if half >= 3 {
            half
        } else {
            3
        };
        assert(limit == threshold(unknown@, candidate@));
        if distance <= limit {
            match best {
                Some(p) => {
                    if distance < p.1 {
                        best = Some((idx, distance));
                    }
                },
                None => {
                    best = Some((idx, distance));
                },
            }
        }
        idx = idx + 1;
    }
    assert(cs.take(candidates@.len() as int) == cs);
    proof {
        lemma_best_match_in_range(unknown@, cs);
    }
    match best {
        Some(p) => {
            let chosen: &str = candidates[p.0];
            Some(chosen.to_owned())
        },
        None => None,
    }
}

/// A suggestion is made exactly when some candidate is close enough; the
/// suggested candidate is close, no close candidate is nearer, and every
/// close candidate before it is farther.
pub proof fn lemma_suggestion_is_nearest(unknown: Seq<char>, cs: Seq<Seq<char>>)
    ensures
        best_match(unknown, cs) is None <==> forall|j: int|
            0 <= j < cs.len() ==> !is_close(unknown, #[trigger] cs[j]),
        best_match(unknown, cs) matches Some(p) ==> {
            &&& 0 <= p.0 < cs.len()
            &&& is_close(unknown, cs[p.0])
            &&& p.1 == name_distance(unknown, cs[p.0])
            &&& forall|j: int|
                0 <= j < cs.len() && is_close(unknown, #[trigger] cs[j]) ==> name_distance(
                    unknown,
                    cs[j],
                ) >= p.1
            &&& forall|j: int|
                0 <= j < p.0 && is_close(unknown, #[trigger] cs[j]) ==> name_distance(unknown, cs[j])
                    > p.1
        },
    decreases cs.len(),
{
    if cs.len() > 0 {
        let init = cs.drop_last();
        lemma_suggestion_is_nearest(unknown, init);
        assert forall|j: int| 0 <= j < init.len() implies init[j] == cs[j] by {}
    }
}

/// The warning for an unknown section or option, with the suggestion if any.
pub open spec fn unknown_warning(
    section: Seq<char>,
    key: Seq<char>,
    suggestion: Option<Seq<char>>,
) -> Seq<char> {
    if section == "section"@ {
        match suggestion {
            Some(s) => "Unknown config section: ["@ + key + "] (did you mean: ["@ + s + "]?)"@,
            None => "Unknown config section: ["@ + key + "]"@,
        }
    } else {
        match suggestion {
            Some(s) => "Unknown option in "@ + section + ": "@ + key + " (did you mean: "@ + s
                + "?)"@,
            None => "Unknown option in "@ + section + ": "@ + key,
        }
    }
}

/// The warning for an unknown config section (when `section` is "section")
/// or an unknown option of a section, with a "did you mean" suggestion.
pub fn format_unknown_warning(section: &str, key: &str, suggestion: Option<&str>) -> (r: String)
    ensures
        r@ == unknown_warning(
            section@,
            key@,
            match suggestion {
                Some(s) => Some(s@),
                None => None,
            },
        ),
{
    let mut msg = String::new();
    if str_eq(section, "section") {
        push_str(&mut msg, "Unknown config section: [");
        push_str(&mut msg, key);
        match suggestion {
            Some(s) => {
                push_str(&mut msg, "] (did you mean: [");
                push_str(&mut msg, s);
                push_str(&mut msg, "]?)");
            },
            None => {
                push_str(&mut msg, "]");
            },
        }
    } else {
        push_str(&mut msg, "Unknown option in ");
        push_str(&mut msg, section);
        push_str(&mut msg, ": ");
        push_str(&mut msg, key);
        match suggestion {
            Some(s) => {
                push_str(&mut msg, " (did you mean: ");
                push_str(&mut msg, s);
                push_str(&mut msg, "?)");
            },
            None => {},
        }
    }
    assert(msg@ == unknown_warning(
        section@,
        key@,
        match suggestion {
            Some(s) => Some(s@),
            None => None,
        },
    ));
    msg
}

} // verus!
