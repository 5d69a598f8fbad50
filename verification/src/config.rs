//! The configuration: server, colors, key bindings, PipeWire and logging settings.

use vstd::prelude::*;
use crate::pipewire::PipewireConfig;
use crate::text::names;
use vstd::utf8::encode_utf8;

verus! {

/// The whole configuration.
pub struct Config {
    pub mpd: MpdConfig,
    pub colors: ColorsConfig,
    pub binds: crate::keymap::BindsConfig,
    pub pipewire: PipewireConfig,
    pub logging: LoggingConfig,
}

impl Default for Config {
    fn default() -> (r: Self)
        ensures
            r.mpd.is_default(),
            r.colors.is_default(),
            r.binds.is_default(),
            r.pipewire.bit_perfect_enabled == false,
            r.logging.is_default(),
    {
        Config {
            mpd: MpdConfig::default(),
            colors: ColorsConfig::default(),
            binds: crate::keymap::BindsConfig::default(),
            pipewire: PipewireConfig::default(),
            logging: LoggingConfig::default(),
        }
    }
}

/// Logging settings.
#[derive(Debug, Clone)]
pub struct LoggingConfig {
    /// Enable logging to file.
    pub enabled: bool,
    /// Log level (error, warn, info, debug, trace).
    pub level: String,
    /// Enable logging to console.
    pub log_to_console: bool,
    /// Append to existing log file.
    pub append_to_file: bool,
    /// Enable log rotation.
    pub rotate_logs: bool,
    /// Maximum log file size in MB before rotation.
    pub rotation_size_mb: u64,
    /// Number of log files to keep when rotating.
    pub keep_log_files: u32,
    /// Custom log file path.
    pub custom_log_path: Option<String>,
}

impl LoggingConfig {
    /// The settings of a default configuration.
    pub open spec fn is_default(&self) -> bool {
        &&& self.enabled
        &&& self.level@ == "info"@
        &&& !self.log_to_console
        &&& self.append_to_file
        &&& self.rotate_logs
        &&& self.rotation_size_mb == 10
        &&& self.keep_log_files == 5
        &&& self.custom_log_path is None
    }

    fn default_enabled() -> (r: bool)
        ensures
            r,
    {
        true
    }

    fn default_level() -> (r: String)
        ensures
            r@ == "info"@,
    {
        "info".to_owned()
    }

    fn default_log_to_console() -> (r: bool)
        ensures
            !r,
    {
        false
    }

    fn default_append_to_file() -> (r: bool)
        ensures
            r,
    {
        true
    }

    fn default_rotate_logs() -> (r: bool)
        ensures
            r,
    {
        true
    }

    fn default_rotation_size_mb() -> (r: u64)
        ensures
            r == 10,
    {
        10
    }

    fn default_keep_log_files() -> (r: u32)
        ensures
            r == 5,
    {
        5
    }
}

impl Default for LoggingConfig {
    fn default() -> (r: Self)
        ensures
            r.is_default(),
    {
        LoggingConfig {
            enabled: Self::default_enabled(),
            level: Self::default_level(),
            log_to_console: Self::default_log_to_console(),
            append_to_file: Self::default_append_to_file(),
            rotate_logs: Self::default_rotate_logs(),
            rotation_size_mb: Self::default_rotation_size_mb(),
            keep_log_files: Self::default_keep_log_files(),
            custom_log_path: None,
        }
    }
}

/// Server settings.
#[derive(Debug)]
pub struct MpdConfig {
    pub address: String,
    pub volume_increment: u32,
    pub volume_increment_fine: u32,
}

impl MpdConfig {
    /// The settings of a default configuration.
    pub open spec fn is_default(&self) -> bool {
        &&& self.address@ == "localhost:6600"@
        &&& self.volume_increment == 5
        &&& self.volume_increment_fine == 1
    }

    fn default_address() -> (r: String)
        ensures
            r@ == "localhost:6600"@,
    {
        "localhost:6600".to_owned()
    }

    fn default_volume_increment() -> (r: u32)
        ensures
            r == 5,
    {
        5
    }

    fn default_volume_increment_fine() -> (r: u32)
        ensures
            r == 1,
    {
        1
    }
}

impl Default for MpdConfig {
    fn default() -> (r: Self)
        ensures
            r.is_default(),
    {
        MpdConfig {
            address: Self::default_address(),
            volume_increment: Self::default_volume_increment(),
            volume_increment_fine: Self::default_volume_increment_fine(),
        }
    }
}

/// A terminal color.
#[derive(Debug, Clone, Copy, PartialEq, Eq, Structural)]
pub enum Color {
    Rgb(u8, u8, u8),
    White,
    Black,
    Red,
    Green,
    Yellow,
    Blue,
    Magenta,
    Cyan,
}

/// The bytes of a string without its leading `#` bytes, as
/// `str::trim_start_matches('#')` leaves them.
pub open spec fn without_hashes(b: Seq<u8>) -> Seq<u8>
    decreases b.len(),
{
    if b.len() > 0 && b[0] == 0x23 {
        without_hashes(b.drop_first())
    } else {
        b
    }
}

/// Slicing six bytes into pairs cuts no character in two (otherwise the
/// slicing panics): the bytes at 2 and 4 do not continue a character.
pub open spec fn hex_sliceable(s: Seq<char>) -> bool {
    let t = without_hashes(encode_utf8(s));
    t.len() == 6 ==> !(0x80 <= t[2] && t[2] < 0xc0) && !(0x80 <= t[4] && t[4] < 0xc0)
}

/// The value of a hexadecimal digit.
pub open spec fn hex_value(b: u8) -> Option<u8> {
    if 0x30 <= b && b <= 0x39 {
        Some((b - 0x30) as u8)
    } else if 0x61 <= b && b <= 0x66 {
        Some((b - 0x61 + 10) as u8)
    } else if 0x41 <= b && b <= 0x46 {
        Some((b - 0x41 + 10) as u8)
    } else {
        None
    }
}

/// Two bytes read as `u8::from_str_radix(.., 16)` reads them: two digits, or
/// `+` and one digit.
pub open spec fn hex_pair(a: u8, b: u8) -> Option<u8> {
    if a == 0x2b {
        hex_value(b)
    } else {
        match (hex_value(a), hex_value(b)) {
            (Some(x), Some(y)) => Some((x * 16 + y) as u8),
            _ => None,
        }
    }
}

/// The color a `#RRGGBB` string names.
pub open spec fn hex_color(s: Seq<char>) -> Option<(u8, u8, u8)> {
    let t = without_hashes(encode_utf8(s));
    if t.len() != 6 {
        None
    } else {
        match (hex_pair(t[0], t[1]), hex_pair(t[2], t[3]), hex_pair(t[4], t[5])) {
            (Some(r), Some(g), Some(b)) => Some((r, g, b)),
            _ => None,
        }
    }
}

fn hex_digit(b: u8) -> (r: Option<u8>)
    ensures
        r == hex_value(b),
{
    if 0x30 <= b && b <= 0x39 {
        Some(b - 0x30)
    } else if 0x61 <= b && b <= 0x66 {
        Some(b - 0x61 + 10)
    } else if 0x41 <= b && b <= 0x46 {
        Some(b - 0x41 + 10)
    } else {
        None
    }
}

fn hex_byte(a: u8, b: u8) -> (r: Option<u8>)
    ensures
        r == hex_pair(a, b),
{
    if a == 0x2b {
        return hex_digit(b);
    }
    match (hex_digit(a), hex_digit(b)) {
        (Some(x), Some(y)) => Some(x * 16 + y),
        _ => None,
    }
}

proof fn lemma_without_hashes_skip(b: Seq<u8>, i: int)
    requires
        0 <= i <= b.len(),
        forall|j: int| 0 <= j < i ==> #[trigger] b[j] == 0x23,
    ensures
        without_hashes(b) == without_hashes(b.skip(i)),
    decreases i,
{
    if i > 0 {
        lemma_without_hashes_skip(b.drop_first(), i - 1);
        assert(b.drop_first().skip(i - 1) == b.skip(i));
    } else {
        assert(b.skip(0) == b);
    }
}

/// Tells whether `parse_hex` can slice the string into pairs.
pub fn is_hex_sliceable(hex: &str) -> (r: bool)
    ensures
        r == hex_sliceable(hex@),
{
    let b = hex.as_bytes();
    let mut i: usize = 0;
    while i < b.len() && b[i] == 0x23
        invariant
            i <= b@.len(),
            forall|j: int| 0 <= j < i ==> #[trigger] b@[j] == 0x23,
        decreases b@.len() - i,
    {
        i = i + 1;
    }
    proof {
        lemma_without_hashes_skip(b@, i as int);
    }
    assert(without_hashes(b@.skip(i as int)) == b@.skip(i as int));
    if b.len() - i != 6 {
        return true;
    }
    let c2 = b[i + 2];
    let c4 = b[i + 4];
    !(0x80 <= c2 && c2 < 0xc0) && !(0x80 <= c4 && c4 < 0xc0)
}

/// Parses a hex color such as `#FF5500` into red, green and blue.
pub fn parse_hex(hex: &str) -> (r: Option<(u8, u8, u8)>)
    requires
        hex_sliceable(hex@),
    ensures
        r == hex_color(hex@),
{
    let b = hex.as_bytes();
    let mut i: usize = 0;
    while i < b.len() && b[i] == 0x23
        invariant
            i <= b@.len(),
            forall|j: int| 0 <= j < i ==> #[trigger] b@[j] == 0x23,
        decreases b@.len() - i,
    {
        i = i + 1;
    }
    proof {
        lemma_without_hashes_skip(b@, i as int);
    }
    assert(without_hashes(b@.skip(i as int)) == b@.skip(i as int));
    if b.len() - i != 6 {
        return None;
    }
    let r = hex_byte(b[i], b[i + 1]);
    let g = hex_byte(b[i + 2], b[i + 3]);
    let bl = hex_byte(b[i + 4], b[i + 5]);
    match (r, g, bl) {
        (Some(x), Some(y), Some(z)) => Some((x, y, z)),
        _ => None,
    }
}

/// The color a string names, or the fallback when it names none.
pub open spec fn color_or(s: Seq<char>, fallback: Color) -> Color {
    match hex_color(s) {
        Some((r, g, b)) => Color::Rgb(r, g, b),
        None => fallback,
    }
}

fn color_from(hex: &String, fallback: Color) -> (r: Color)
    requires
        hex_sliceable(hex@),
    ensures
        r == color_or(hex@, fallback),
{
    match parse_hex(hex.as_str()) {
        Some((r, g, b)) => Color::Rgb(r, g, b),
        None => fallback,
    }
}

/// Color settings, each a `#RRGGBB` string.
#[derive(Debug)]
pub struct ColorsConfig {
    pub border: String,
    pub song_title: String,
    pub album: String,
    pub artist: String,
    pub border_title: String,
    pub progress_filled: String,
    pub progress_empty: String,
    pub paused: String,
    pub playing: String,
    pub stopped: String,
    pub time_separator: String,
    pub time_duration: String,
    pub time_elapsed: String,
    pub queue_selected_highlight: String,
    pub queue_selected_text: String,
    pub queue_album: String,
    pub queue_song_title: String,
    pub queue_artist: String,
    pub queue_position: String,
    pub queue_duration: String,
    pub top_accent: String,
    pub volume: String,
    pub volume_empty: String,
    pub mode: String,
    pub track_duration: String,
}

fn hex_string(s: &str) -> (r: String)
    ensures
        r@ == s@,
{
    s.to_owned()
}

impl ColorsConfig {
    /// The colors of a default configuration.
    pub open spec fn is_default(&self) -> bool {
        &&& self.border@ == "#fae280"@
        &&& self.song_title@ == "#fae280"@
        &&& self.album@ == "#26a0a1"@
        &&& self.artist@ == "#d67751"@
        &&& self.border_title@ == "#8193af"@
        &&& self.progress_filled@ == "#26a0a1"@
        &&& self.progress_empty@ == "#1b1d0e"@
        &&& self.paused@ == "#e16a7c"@
        &&& self.playing@ == "#e16a7c"@
        &&& self.stopped@ == "#e16a7c"@
        &&& self.time_separator@ == "#e16a7c"@
        &&& self.time_duration@ == "#e16a7c"@
        &&& self.time_elapsed@ == "#e16a7c"@
        &&& self.queue_selected_highlight@ == "#b18a4a"@
        &&& self.queue_selected_text@ == "#1b1d0e"@
        &&& self.queue_album@ == "#26a0a1"@
        &&& self.queue_song_title@ == "#fae280"@
        &&& self.queue_artist@ == "#d67751"@
        &&& self.queue_position@ == "#e16a7c"@
        &&& self.queue_duration@ == "#e16a7c"@
        &&& self.top_accent@ == "#e16a7c"@
        &&& self.volume@ == "#26a0a1"@
        &&& self.volume_empty@ == "#1b1d0e"@
        &&& self.mode@ == "#fae280"@
        &&& self.track_duration@ == "#e16a7c"@
    }

    /// Every color string can be sliced into pairs.
    pub open spec fn sliceable(&self) -> bool {
        &&& hex_sliceable(self.border@)
        &&& hex_sliceable(self.song_title@)
        &&& hex_sliceable(self.album@)
        &&& hex_sliceable(self.artist@)
        &&& hex_sliceable(self.border_title@)
        &&& hex_sliceable(self.progress_filled@)
        &&& hex_sliceable(self.progress_empty@)
        &&& hex_sliceable(self.paused@)
        &&& hex_sliceable(self.playing@)
        &&& hex_sliceable(self.stopped@)
        &&& hex_sliceable(self.time_separator@)
        &&& hex_sliceable(self.time_duration@)
        &&& hex_sliceable(self.time_elapsed@)
        &&& hex_sliceable(self.queue_selected_highlight@)
        &&& hex_sliceable(self.queue_selected_text@)
        &&& hex_sliceable(self.queue_album@)
        &&& hex_sliceable(self.queue_song_title@)
        &&& hex_sliceable(self.queue_artist@)
        &&& hex_sliceable(self.queue_position@)
        &&& hex_sliceable(self.queue_duration@)
        &&& hex_sliceable(self.top_accent@)
        &&& hex_sliceable(self.volume@)
        &&& hex_sliceable(self.volume_empty@)
        &&& hex_sliceable(self.mode@)
        &&& hex_sliceable(self.track_duration@)
    }

    /// Tells whether every color string can be sliced into pairs.
    pub fn all_sliceable(&self) -> (r: bool)
        ensures
            r == self.sliceable(),
    {
        is_hex_sliceable(self.border.as_str()) && is_hex_sliceable(self.song_title.as_str())
            && is_hex_sliceable(self.album.as_str()) && is_hex_sliceable(self.artist.as_str())
            && is_hex_sliceable(self.border_title.as_str()) && is_hex_sliceable(
            self.progress_filled.as_str(),
        ) && is_hex_sliceable(self.progress_empty.as_str()) && is_hex_sliceable(
            self.paused.as_str(),
        ) && is_hex_sliceable(self.playing.as_str()) && is_hex_sliceable(self.stopped.as_str())
            && is_hex_sliceable(self.time_separator.as_str()) && is_hex_sliceable(
            self.time_duration.as_str(),
        ) && is_hex_sliceable(self.time_elapsed.as_str()) && is_hex_sliceable(
            self.queue_selected_highlight.as_str(),
        ) && is_hex_sliceable(self.queue_selected_text.as_str()) && is_hex_sliceable(
            self.queue_album.as_str(),
        ) && is_hex_sliceable(self.queue_song_title.as_str()) && is_hex_sliceable(
            self.queue_artist.as_str(),
        ) && is_hex_sliceable(self.queue_position.as_str()) && is_hex_sliceable(
            self.queue_duration.as_str(),
        ) && is_hex_sliceable(self.top_accent.as_str()) && is_hex_sliceable(self.volume.as_str())
            && is_hex_sliceable(self.volume_empty.as_str()) && is_hex_sliceable(self.mode.as_str())
            && is_hex_sliceable(self.track_duration.as_str())
    }

    pub fn time_elapsed(&self) -> (r: Color)
        requires
            hex_sliceable(self.time_elapsed@),
        ensures
            r == color_or(self.time_elapsed@, Color::White),
    {
        color_from(&self.time_elapsed, Color::White)
    }

    pub fn time_duration(&self) -> (r: Color)
        requires
            hex_sliceable(self.time_duration@),
        ensures
            r == color_or(self.time_duration@, Color::White),
    {
        color_from(&self.time_duration, Color::White)
    }

    pub fn time_separator(&self) -> (r: Color)
        requires
            hex_sliceable(self.time_separator@),
        ensures
            r == color_or(self.time_separator@, Color::White),
    {
        color_from(&self.time_separator, Color::White)
    }

    pub fn paused(&self) -> (r: Color)
        requires
            hex_sliceable(self.paused@),
        ensures
            r == color_or(self.paused@, Color::White),
    {
        color_from(&self.paused, Color::White)
    }

    pub fn playing(&self) -> (r: Color)
        requires
            hex_sliceable(self.playing@),
        ensures
            r == color_or(self.playing@, Color::White),
    {
        color_from(&self.playing, Color::White)
    }

    pub fn stopped(&self) -> (r: Color)
        requires
            hex_sliceable(self.stopped@),
        ensures
            r == color_or(self.stopped@, Color::White),
    {
        color_from(&self.stopped, Color::White)
    }

    pub fn album_color(&self) -> (r: Color)
        requires
            hex_sliceable(self.album@),
        ensures
            r == color_or(self.album@, Color::White),
    {
        color_from(&self.album, Color::White)
    }

    pub fn progress_filled_color(&self) -> (r: Color)
        requires
            hex_sliceable(self.progress_filled@),
        ensures
            r == color_or(self.progress_filled@, Color::Green),
    {
        color_from(&self.progress_filled, Color::Green)
    }

    pub fn progress_empty_color(&self) -> (r: Color)
        requires
            hex_sliceable(self.progress_empty@),
        ensures
            r == color_or(self.progress_empty@, Color::Black),
    {
        color_from(&self.progress_empty, Color::Black)
    }

    pub fn border_title_color(&self) -> (r: Color)
        requires
            hex_sliceable(self.border_title@),
        ensures
            r == color_or(self.border_title@, Color::White),
    {
        color_from(&self.border_title, Color::White)
    }

    pub fn border_color(&self) -> (r: Color)
        requires
            hex_sliceable(self.border@),
        ensures
            r == color_or(self.border@, Color::White),
    {
        color_from(&self.border, Color::White)
    }

    pub fn artist_color(&self) -> (r: Color)
        requires
            hex_sliceable(self.artist@),
        ensures
            r == color_or(self.artist@, Color::Cyan),
    {
        color_from(&self.artist, Color::Cyan)
    }

    pub fn song_title_color(&self) -> (r: Color)
        requires
            hex_sliceable(self.song_title@),
        ensures
            r == color_or(self.song_title@, Color::Yellow),
    {
        color_from(&self.song_title, Color::Yellow)
    }

    pub fn queue_album_color(&self) -> (r: Color)
        requires
            hex_sliceable(self.queue_album@),
        ensures
            r == color_or(self.queue_album@, Color::Green),
    {
        color_from(&self.queue_album, Color::Green)
    }

    pub fn queue_artist_color(&self) -> (r: Color)
        requires
            hex_sliceable(self.queue_artist@),
        ensures
            r == color_or(self.queue_artist@, Color::Cyan),
    {
        color_from(&self.queue_artist, Color::Cyan)
    }

    pub fn queue_song_title_color(&self) -> (r: Color)
        requires
            hex_sliceable(self.queue_song_title@),
        ensures
            r == color_or(self.queue_song_title@, Color::Yellow),
    {
        color_from(&self.queue_song_title, Color::Yellow)
    }

    pub fn queue_selected_text_color(&self) -> (r: Color)
        requires
            hex_sliceable(self.queue_selected_text@),
        ensures
            r == color_or(self.queue_selected_text@, Color::White),
    {
        color_from(&self.queue_selected_text, Color::White)
    }

    pub fn queue_selected_highlight_color(&self) -> (r: Color)
        requires
            hex_sliceable(self.queue_selected_highlight@),
        ensures
            r == color_or(self.queue_selected_highlight@, Color::Black),
    {
        color_from(&self.queue_selected_highlight, Color::Black)
    }

    pub fn queue_position_color(&self) -> (r: Color)
        requires
            hex_sliceable(self.queue_position@),
        ensures
            r == color_or(self.queue_position@, Color::Magenta),
    {
        color_from(&self.queue_position, Color::Magenta)
    }

    pub fn queue_duration_color(&self) -> (r: Color)
        requires
            hex_sliceable(self.queue_duration@),
        ensures
            r == color_or(self.queue_duration@, Color::Magenta),
    {
        color_from(&self.queue_duration, Color::Magenta)
    }

    pub fn top_accent_color(&self) -> (r: Color)
        requires
            hex_sliceable(self.top_accent@),
        ensures
            r == color_or(self.top_accent@, Color::Blue),
    {
        color_from(&self.top_accent, Color::Blue)
    }

    pub fn volume_color(&self) -> (r: Color)
        requires
            hex_sliceable(self.volume@),
        ensures
            r == color_or(self.volume@, Color::Yellow),
    {
        color_from(&self.volume, Color::Yellow)
    }

    pub fn volume_empty_color(&self) -> (r: Color)
        requires
            hex_sliceable(self.volume_empty@),
        ensures
            r == color_or(self.volume_empty@, Color::Black),
    {
        color_from(&self.volume_empty, Color::Black)
    }

    pub fn mode_color(&self) -> (r: Color)
        requires
            hex_sliceable(self.mode@),
        ensures
            r == color_or(self.mode@, Color::Green),
    {
        color_from(&self.mode, Color::Green)
    }

    pub fn track_duration_color(&self) -> (r: Color)
        requires
            hex_sliceable(self.track_duration@),
        ensures
            r == color_or(self.track_duration@, Color::Red),
    {
        color_from(&self.track_duration, Color::Red)
    }
}

impl Default for ColorsConfig {
    fn default() -> (r: Self)
        ensures
            r.is_default(),
    {
        ColorsConfig {
            border: hex_string("#fae280"),
            song_title: hex_string("#fae280"),
            album: hex_string("#26a0a1"),
            artist: hex_string("#d67751"),
            border_title: hex_string("#8193af"),
            progress_filled: hex_string("#26a0a1"),
            progress_empty: hex_string("#1b1d0e"),
            paused: hex_string("#e16a7c"),
            playing: hex_string("#e16a7c"),
            stopped: hex_string("#e16a7c"),
            time_separator: hex_string("#e16a7c"),
            time_duration: hex_string("#e16a7c"),
            time_elapsed: hex_string("#e16a7c"),
            queue_selected_highlight: hex_string("#b18a4a"),
            queue_selected_text: hex_string("#1b1d0e"),
            queue_album: hex_string("#26a0a1"),
            queue_song_title: hex_string("#fae280"),
            queue_artist: hex_string("#d67751"),
            queue_position: hex_string("#e16a7c"),
            queue_duration: hex_string("#e16a7c"),
            top_accent: hex_string("#e16a7c"),
            volume: hex_string("#26a0a1"),
            volume_empty: hex_string("#1b1d0e"),
            mode: hex_string("#fae280"),
            track_duration: hex_string("#e16a7c"),
        }
    }
}

} // verus!
