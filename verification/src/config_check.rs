//! Warnings for unknown sections and options in a configuration file.

use vstd::prelude::*;
use crate::suggest::{find_similar, format_unknown_warning, str_views, suggestion, unknown_warning};
use crate::text::names;

verus! {

/// A top-level entry of a TOML document: its key and, when its value is a
/// table, the keys of that table in the order the document's map keeps them.
pub struct SectionOutline {
    pub name: String,
    pub keys: Option<Vec<String>>,
}

/// The outline of a document as plain values.
pub type OutlineView = Seq<(Seq<char>, Option<Seq<Seq<char>>>)>;

/// The outline of the TOML document held by a string, as `toml::from_str`
/// into a `toml::Table` reads it (`None` when it does not parse).
pub uninterp spec fn toml_outline(s: Seq<char>) -> Option<Seq<(Seq<char>, Option<Seq<Seq<char>>>)>>;

/// The plain view of an outline entry.
pub open spec fn entry_view(e: SectionOutline) -> (Seq<char>, Option<Seq<Seq<char>>>) {
    (
        e.name@,
        match e.keys {
            Some(k) => Some(names(k@)),
            None => None,
        },
    )
}

/// The plain view of an outline.
pub open spec fn outline_view(o: Seq<SectionOutline>) -> OutlineView {
    o.map_values(|e: SectionOutline| entry_view(e))
}

/// Trusted: parses `contents` with `toml::from_str` into a `toml::Table` and
/// lists its keys, with the keys of each value that is a table. The result is
/// named `toml_outline`, a function of the text alone.
#[verifier::external_body]
fn parse_outline(contents: &str) -> (r: Option<Vec<SectionOutline>>)
    ensures
        match r {
            Some(v) => toml_outline(contents@) == Some(outline_view(v@)),
            None => toml_outline(contents@) is None,
        },
{
    let table: toml::Table = match toml::from_str(contents) {
        Ok(t) => t,
        Err(_) => return None,
    };
    Some(table.iter().map(|(k, v)| SectionOutline {
        name: k.clone(),
        keys: match v {
            toml::Value::Table(t) => Some(t.keys().cloned().collect()),
            _ => None,
        },
    }).collect())
}

/// The known top-level sections.
pub open spec fn known_sections() -> Seq<Seq<char>> {
    seq!["mpd"@, "colors"@, "binds"@, "pipewire"@, "logging"@]
}

/// The known options of `[mpd]`.
pub open spec fn known_mpd_fields() -> Seq<Seq<char>> {
    seq!["address"@, "volume_increment"@, "volume_increment_fine"@]
}

/// The known options of `[colors]`.
pub open spec fn known_colors_fields() -> Seq<Seq<char>> {
    seq![
        "border"@,
        "song_title"@,
        "album"@,
        "artist"@,
        "border_title"@,
        "progress_filled"@,
        "progress_empty"@,
        "paused"@,
        "playing"@,
        "stopped"@,
        "time_separator"@,
        "time_duration"@,
        "time_elapsed"@,
        "queue_selected_highlight"@,
        "queue_selected_text"@,
        "queue_album"@,
        "queue_song_title"@,
        "queue_artist"@,
        "queue_position"@,
        "queue_duration"@,
        "top_accent"@,
        "volume"@,
        "volume_empty"@,
        "mode"@,
        "track_duration"@,
    ]
}

/// The known options of `[binds]`.
pub open spec fn known_binds_fields() -> Seq<Seq<char>> {
    seq![
        "next"@,
        "previous"@,
        "toggle_play_pause"@,
        "volume_up"@,
        "volume_up_fine"@,
        "volume_down"@,
        "volume_down_fine"@,
        "toggle_mute"@,
        "cycle_mode_right"@,
        "cycle_mode_left"@,
        "clear_queue"@,
        "repeat"@,
        "random"@,
        "single"@,
        "consume"@,
        "quit"@,
        "refresh"@,
        "switch_to_queue_menu"@,
        "switch_to_artists"@,
        "switch_to_albums"@,
        "seek_forward"@,
        "seek_backward"@,
        "scroll_up"@,
        "scroll_down"@,
        "play_selected"@,
        "remove_from_queue"@,
        "move_up_in_queue"@,
        "move_down_in_queue"@,
        "switch_panel_left"@,
        "switch_panel_right"@,
        "toggle_album_expansion"@,
        "add_to_queue"@,
        "scroll_up_big"@,
        "scroll_down_big"@,
        "go_to_top"@,
        "go_to_bottom"@,
        "toggle_bit_perfect"@,
    ]
}

/// The known options of `[pipewire]`.
pub open spec fn known_pipewire_fields() -> Seq<Seq<char>> {
    seq!["bit_perfect_enabled"@]
}

/// The known options of `[logging]`.
pub open spec fn known_logging_fields() -> Seq<Seq<char>> {
    seq![
        "enabled"@,
        "level"@,
        "log_to_console"@,
        "append_to_file"@,
        "rotate_logs"@,
        "rotation_size_mb"@,
        "keep_log_files"@,
        "custom_log_path"@,
    ]
}

fn section_names() -> (r: Vec<&'static str>)
    ensures
        str_views(r@) == known_sections(),
{
    let mut r: Vec<&'static str> = Vec::new();
    r.push("mpd");
    r.push("colors");
    r.push("binds");
    r.push("pipewire");
    r.push("logging");
    assert(str_views(r@) =~= known_sections());
    r
}

fn mpd_field_names() -> (r: Vec<&'static str>)
    ensures
        str_views(r@) == known_mpd_fields(),
{
    let mut r: Vec<&'static str> = Vec::new();
    r.push("address");
    r.push("volume_increment");
    r.push("volume_increment_fine");
    assert(str_views(r@) =~= known_mpd_fields());
    r
}

fn colors_field_names() -> (r: Vec<&'static str>)
    ensures
        str_views(r@) == known_colors_fields(),
{
    let mut r: Vec<&'static str> = Vec::new();
    r.push("border");
    r.push("song_title");
    r.push("album");
    r.push("artist");
    r.push("border_title");
    r.push("progress_filled");
    r.push("progress_empty");
    r.push("paused");
    r.push("playing");
    r.push("stopped");
    r.push("time_separator");
    r.push("time_duration");
    r.push("time_elapsed");
    r.push("queue_selected_highlight");
    r.push("queue_selected_text");
    r.push("queue_album");
    r.push("queue_song_title");
    r.push("queue_artist");
    r.push("queue_position");
    r.push("queue_duration");
    r.push("top_accent");
    r.push("volume");
    r.push("volume_empty");
    r.push("mode");
    r.push("track_duration");
    assert(str_views(r@) =~= known_colors_fields());
    r
}

fn binds_field_names() -> (r: Vec<&'static str>)
    ensures
        str_views(r@) == known_binds_fields(),
{
    let mut r: Vec<&'static str> = Vec::new();
    r.push("next");
    r.push("previous");
    r.push("toggle_play_pause");
    r.push("volume_up");
    r.push("volume_up_fine");
    r.push("volume_down");
    r.push("volume_down_fine");
    r.push("toggle_mute");
    r.push("cycle_mode_right");
    r.push("cycle_mode_left");
    r.push("clear_queue");
    r.push("repeat");
    r.push("random");
    r.push("single");
    r.push("consume");
    r.push("quit");
    r.push("refresh");
    r.push("switch_to_queue_menu");
    r.push("switch_to_artists");
    r.push("switch_to_albums");
    r.push("seek_forward");
    r.push("seek_backward");
    r.push("scroll_up");
    r.push("scroll_down");
    r.push("play_selected");
    r.push("remove_from_queue");
    r.push("move_up_in_queue");
    r.push("move_down_in_queue");
    r.push("switch_panel_left");
    r.push("switch_panel_right");
    r.push("toggle_album_expansion");
    r.push("add_to_queue");
    r.push("scroll_up_big");
    r.push("scroll_down_big");
    r.push("go_to_top");
    r.push("go_to_bottom");
    r.push("toggle_bit_perfect");
    assert(str_views(r@) =~= known_binds_fields());
    r
}

fn pipewire_field_names() -> (r: Vec<&'static str>)
    ensures
        str_views(r@) == known_pipewire_fields(),
{
    let mut r: Vec<&'static str> = Vec::new();
    r.push("bit_perfect_enabled");
    assert(str_views(r@) =~= known_pipewire_fields());
    r
}

fn logging_field_names() -> (r: Vec<&'static str>)
    ensures
        str_views(r@) == known_logging_fields(),
{
    let mut r: Vec<&'static str> = Vec::new();
    r.push("enabled");
    r.push("level");
    r.push("log_to_console");
    r.push("append_to_file");
    r.push("rotate_logs");
    r.push("rotation_size_mb");
    r.push("keep_log_files");
    r.push("custom_log_path");
    assert(str_views(r@) =~= known_logging_fields());
    r
}

/// The warnings for the keys that are not known, in the order of the keys,
/// each with a suggestion among the known names.
pub open spec fn key_warnings(label: Seq<char>, keys: Seq<Seq<char>>, known: Seq<Seq<char>>) -> Seq<
    Seq<char>,
>
    decreases keys.len(),
{
    if keys.len() == 0 {
        Seq::empty()
    } else {
        let k = keys.last();
        let rest = key_warnings(label, keys.drop_last(), known);
        if known.contains(k) {
            rest
        } else {
            rest.push(unknown_warning(label, k, suggestion(k, known)))
        }
    }
}

/// The keys of the first entry named `name`, when its value is a table.
pub open spec fn section_keys(o: OutlineView, name: Seq<char>) -> Option<Seq<Seq<char>>>
    decreases o.len(),
{
    if o.len() == 0 {
        None
    } else if o[0].0 == name {
        o[0].1
    } else {
        section_keys(o.drop_first(), name)
    }
}

/// The warnings of one known section: none when it is absent or not a table.
pub open spec fn section_warnings(
    o: OutlineView,
    name: Seq<char>,
    label: Seq<char>,
    known: Seq<Seq<char>>,
) -> Seq<Seq<char>> {
    match section_keys(o, name) {
        Some(keys) => key_warnings(label, keys, known),
        None => Seq::empty(),
    }
}

/// The top-level keys of an outline.
pub open spec fn top_keys(o: OutlineView) -> Seq<Seq<char>> {
    o.map_values(|e: (Seq<char>, Option<Seq<Seq<char>>>)| e.0)
}

/// All warnings of a document: unknown sections first, then the unknown
/// options of `[mpd]`, `[colors]`, `[binds]`, `[pipewire]` and `[logging]`.
pub open spec fn outline_warnings(o: OutlineView) -> Seq<Seq<char>> {
    key_warnings("section"@, top_keys(o), known_sections()) + section_warnings(
        o,
        "mpd"@,
        "[mpd]"@,
        known_mpd_fields(),
    ) + section_warnings(o, "colors"@, "[colors]"@, known_colors_fields()) + section_warnings(
        o,
        "binds"@,
        "[binds]"@,
        known_binds_fields(),
    ) + section_warnings(o, "pipewire"@, "[pipewire]"@, known_pipewire_fields())
        + section_warnings(o, "logging"@, "[logging]"@, known_logging_fields())
}

fn is_known(key: &str, known: &Vec<&'static str>) -> (r: bool)
    ensures
        r == str_views(known@).contains(key@),
{
    let mut i: usize = 0;
    while i < known.len()
        invariant
            i <= known@.len(),
            forall|j: int| 0 <= j < i ==> str_views(known@)[j] != key@,
        decreases known@.len() - i,
    {
        if crate::text::str_eq(known[i], key) {
            assert(str_views(known@)[i as int] == key@);
            return true;
        }
        i = i + 1;
    }
    false
}

/// Appends to `out` the warnings for the unknown keys among `keys`.
fn push_key_warnings(
    out: &mut Vec<String>,
    label: &str,
    keys: &Vec<String>,
    known: &Vec<&'static str>,
)
    ensures
        names(final(out)@) == names(old(out)@) + key_warnings(
            label@,
            names(keys@),
            str_views(known@),
        ),
{
    let ghost start = names(out@);
    let mut i: usize = 0;
    while i < keys.len()
        invariant
            i <= keys@.len(),
            names(out@) == start + key_warnings(
                label@,
                names(keys@).take(i as int),
                str_views(known@),
            ),
        decreases keys@.len() - i,
    {
        let key: &str = keys[i].as_str();
        let ghost prefix = names(keys@).take(i + 1);
        assert(prefix.drop_last() == names(keys@).take(i as int));
        assert(prefix.last() == key@);
        if !is_known(key, known) {
            let suggested = find_similar(key, known.as_slice());
            let msg = match &suggested {
                Some(s) => format_unknown_warning(label, key, Some(s.as_str())),
                None => format_unknown_warning(label, key, None),
            };
            let ghost kv = str_views(known@);
            assert(key_warnings(label@, prefix, kv) == key_warnings(
                label@,
                prefix.drop_last(),
                kv,
            ).push(unknown_warning(label@, key@, suggestion(key@, kv))));
            let ghost before = names(out@);
            out.push(msg);
            assert(names(out@) =~= before.push(msg@));
            assert(names(out@) =~= start + key_warnings(
                label@,
                prefix,
                str_views(known@),
            ));
        }
        i = i + 1;
    }
    assert(names(keys@).take(keys@.len() as int) == names(keys@));
}

/// The keys of the first entry named `name` whose value is a table, as
/// `section_keys` gives them.
fn find_section<'a>(outline: &'a Vec<SectionOutline>, name: &str) -> (r: Option<&'a Vec<String>>)
    ensures
        match r {
            Some(k) => section_keys(outline_view(outline@), name@) == Some(names(k@)),
            None => section_keys(outline_view(outline@), name@) is None,
        },
{
    let ghost o = outline_view(outline@);
    assert(o.skip(0) == o);
    let mut i: usize = 0;
    while i < outline.len()
        invariant
            i <= outline@.len(),
            o == outline_view(outline@),
            section_keys(o, name@) == section_keys(o.skip(i as int), name@),
        decreases outline@.len() - i,
    {
        assert(o.skip(i as int)[0] == entry_view(outline@[i as int]));
        assert(o.skip(i as int).drop_first() == o.skip(i + 1));
        if crate::text::str_eq(outline[i].name.as_str(), name) {
            return match &outline[i].keys {
                Some(k) => Some(k),
                None => None,
            };
        }
        i = i + 1;
    }
    None
}

/// Appends the warnings of one known section.
fn push_section_warnings(
    out: &mut Vec<String>,
    outline: &Vec<SectionOutline>,
    name: &str,
    label: &str,
    known: &Vec<&'static str>,
)
    ensures
        names(final(out)@) == names(old(out)@) + section_warnings(
            outline_view(outline@),
            name@,
            label@,
            str_views(known@),
        ),
{
    match find_section(outline, name) {
        Some(keys) => push_key_warnings(out, label, keys, known),
        None => {
            assert(names(out@) =~= names(out@) + Seq::<Seq<char>>::empty());
        },
    }
}

/// The warnings for the unknown sections and options of an outline.
pub fn outline_warnings_of(outline: &Vec<SectionOutline>) -> (r: Vec<String>)
    ensures
        names(r@) == outline_warnings(outline_view(outline@)),
{
    let ghost o = outline_view(outline@);
    let mut top: Vec<String> = Vec::new();
    let mut i: usize = 0;
    while i < outline.len()
        invariant
            i <= outline@.len(),
            o == outline_view(outline@),
            names(top@) == top_keys(o).take(i as int),
        decreases outline@.len() - i,
    {
        let ghost before = names(top@);
        let n = outline[i].name.clone();
        assert(n@ == top_keys(o)[i as int]);
        top.push(n);
        assert(names(top@) =~= before.push(n@));
        i = i + 1;
        assert(names(top@) =~= top_keys(o).take(i as int));
    }
    assert(top_keys(o).take(outline@.len() as int) == top_keys(o));
    let mut out: Vec<String> = Vec::new();
    assert(names(out@) =~= Seq::<Seq<char>>::empty());
    push_key_warnings(&mut out, "section", &top, &section_names());
    push_section_warnings(&mut out, outline, "mpd", "[mpd]", &mpd_field_names());
    push_section_warnings(&mut out, outline, "colors", "[colors]", &colors_field_names());
    push_section_warnings(&mut out, outline, "binds", "[binds]", &binds_field_names());
    push_section_warnings(&mut out, outline, "pipewire", "[pipewire]", &pipewire_field_names());
    push_section_warnings(&mut out, outline, "logging", "[logging]", &logging_field_names());
    assert(names(out@) =~= outline_warnings(o));
    out
}

/// The warnings for unknown sections and options in a configuration file's
/// text; none when the text is not a TOML document.
pub fn check_unknown_fields(contents: &str) -> (r: Vec<String>)
    ensures
        names(r@) == match toml_outline(contents@) {
            Some(o) => outline_warnings(o),
            None => Seq::<Seq<char>>::empty(),
        },
{
    match parse_outline(contents) {
        Some(outline) => outline_warnings_of(&outline),
        None => {
            let r: Vec<String> = Vec::new();
            assert(names(r@) =~= Seq::<Seq<char>>::empty());
            r
        },
    }
}

proof fn lemma_key_reported(label: Seq<char>, keys: Seq<Seq<char>>, known: Seq<Seq<char>>, k: Seq<char>)
    requires
        keys.contains(k),
        !known.contains(k),
    ensures
        key_warnings(label, keys, known).contains(unknown_warning(label, k, suggestion(k, known))),
    decreases keys.len(),
{
    let w = unknown_warning(label, k, suggestion(k, known));
    let rest = key_warnings(label, keys.drop_last(), known);
    if keys.last() == k {
        let r = rest.push(w);
        assert(r[rest.len() as int] == w);
    } else {
        let i = choose|i: int| 0 <= i < keys.len() && keys[i] == k;
        assert(i != keys.len() - 1);
        assert(keys.drop_last()[i] == k);
        lemma_key_reported(label, keys.drop_last(), known, k);
        let j = choose|j: int| 0 <= j < rest.len() && rest[j] == w;
        if !known.contains(keys.last()) {
            let r = rest.push(unknown_warning(label, keys.last(), suggestion(keys.last(), known)));
            assert(r[j] == w);
        }
    }
}

proof fn lemma_first_section(o: OutlineView, name: Seq<char>, j: int)
    requires
        0 <= j < o.len(),
        o[j].0 == name,
        forall|l: int| 0 <= l < j ==> (#[trigger] o[l]).0 != name,
    ensures
        section_keys(o, name) == o[j].1,
    decreases o.len(),
{
    if j > 0 {
        assert(o[0].0 != name);
        assert forall|l: int| 0 <= l < j - 1 implies (#[trigger] o.drop_first()[l]).0 != name by {
            assert(o.drop_first()[l] == o[l + 1]);
        }
        assert(o.drop_first()[j - 1] == o[j]);
        lemma_first_section(o.drop_first(), name, j - 1);
    }
}

proof fn lemma_concat_contains(a: Seq<Seq<char>>, b: Seq<Seq<char>>, x: Seq<char>)
    ensures
        (a.contains(x) || b.contains(x)) ==> (a + b).contains(x),
{
    if a.contains(x) {
        let i = choose|i: int| 0 <= i < a.len() && a[i] == x;
        assert((a + b)[i] == x);
    } else if b.contains(x) {
        let i = choose|i: int| 0 <= i < b.len() && b[i] == x;
        assert((a + b)[a.len() + i] == x);
    }
}

/// Every unknown option of a known section is reported: when the first
/// entry named after one of `[mpd]`, `[colors]`, `[binds]`, `[pipewire]`
/// and `[logging]` is a table, each of its keys that the section does not
/// know gets the warning "Unknown option in [section]: key", with its
/// suggestion, among the document's warnings.
pub proof fn lemma_unknown_options_reported(
    o: OutlineView,
    j: int,
    name: Seq<char>,
    label: Seq<char>,
    known: Seq<Seq<char>>,
    keys: Seq<Seq<char>>,
    k: Seq<char>,
)
    requires
        (name == "mpd"@ && label == "[mpd]"@ && known == known_mpd_fields()) || (name
            == "colors"@ && label == "[colors]"@ && known == known_colors_fields()) || (name
            == "binds"@ && label == "[binds]"@ && known == known_binds_fields()) || (name
            == "pipewire"@ && label == "[pipewire]"@ && known == known_pipewire_fields()) || (
        name == "logging"@ && label == "[logging]"@ && known == known_logging_fields()),
        0 <= j < o.len(),
        o[j].0 == name,
        forall|l: int| 0 <= l < j ==> (#[trigger] o[l]).0 != name,
        o[j].1 == Some(keys),
        keys.contains(k),
        !known.contains(k),
    ensures
        outline_warnings(o).contains(unknown_warning(label, k, suggestion(k, known))),
{
    let w = unknown_warning(label, k, suggestion(k, known));
    lemma_first_section(o, name, j);
    lemma_key_reported(label, keys, known, k);
    assert(section_warnings(o, name, label, known).contains(w));
    let a = key_warnings("section"@, top_keys(o), known_sections());
    let m = section_warnings(o, "mpd"@, "[mpd]"@, known_mpd_fields());
    let c = section_warnings(o, "colors"@, "[colors]"@, known_colors_fields());
    let b = section_warnings(o, "binds"@, "[binds]"@, known_binds_fields());
    let p = section_warnings(o, "pipewire"@, "[pipewire]"@, known_pipewire_fields());
    let g = section_warnings(o, "logging"@, "[logging]"@, known_logging_fields());
    lemma_concat_contains(a, m, w);
    lemma_concat_contains(a + m, c, w);
    lemma_concat_contains(a + m + c, b, w);
    lemma_concat_contains(a + m + c + b, p, w);
    lemma_concat_contains(a + m + c + b + p, g, w);
}

} // verus!
