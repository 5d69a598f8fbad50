use zarumet::config::{is_hex_sliceable, parse_hex, Color, ColorsConfig, Config};
use zarumet::config_check::check_unknown_fields;
use zarumet::suggest::{find_similar, format_unknown_warning, levenshtein_distance};

#[test]
fn edit_distances() {
    assert_eq!(levenshtein_distance("kitten", "sitting"), 3);
    assert_eq!(levenshtein_distance("", "abc"), 3);
    assert_eq!(levenshtein_distance("same", "same"), 0);
    assert_eq!(levenshtein_distance("flaw", "lawn"), 2);
}

#[test]
fn similar_names() {
    assert_eq!(find_similar("adress", &["address", "level"]), Some("address".to_string()));
    assert_eq!(find_similar("LEVEL", &["address", "level"]), Some("level".to_string()));
    assert_eq!(find_similar("xyz", &["address"]), None);
    assert_eq!(find_similar("abc", &[]), None);
    // The first candidate at the smallest distance wins.
    assert_eq!(find_similar("ab", &["abc", "abd"]), Some("abc".to_string()));
}

#[test]
fn warning_texts() {
    assert_eq!(
        format_unknown_warning("section", "colrs", Some("colors")),
        "Unknown config section: [colrs] (did you mean: [colors]?)"
    );
    assert_eq!(format_unknown_warning("section", "zzz", None), "Unknown config section: [zzz]");
    assert_eq!(
        format_unknown_warning("[mpd]", "adress", Some("address")),
        "Unknown option in [mpd]: adress (did you mean: address?)"
    );
    assert_eq!(format_unknown_warning("[mpd]", "q", None), "Unknown option in [mpd]: q");
}

#[test]
fn unknown_fields_in_a_file() {
    let text = "[mpd]\nadress = \"localhost:6600\"\n\n[colrs]\nborder = \"#ffffff\"\n";
    assert_eq!(
        check_unknown_fields(text),
        vec![
            "Unknown config section: [colrs] (did you mean: [colors]?)".to_string(),
            "Unknown option in [mpd]: adress (did you mean: address?)".to_string(),
        ]
    );
    let clean = "[mpd]\naddress = \"localhost:6600\"\n[logging]\nlevel = \"debug\"\n";
    assert!(check_unknown_fields(clean).is_empty());
    // Text that is not TOML gives no warnings.
    assert!(check_unknown_fields("[mpd\naddress =").is_empty());
}

#[test]
fn hex_colors() {
    assert_eq!(parse_hex("#ff8000"), Some((255, 128, 0)));
    assert_eq!(parse_hex("FF8000"), Some((255, 128, 0)));
    assert_eq!(parse_hex("##0a0B0c"), Some((10, 11, 12)));
    assert_eq!(parse_hex("#fff"), None);
    assert_eq!(parse_hex("#gg0000"), None);
    assert_eq!(parse_hex("#+f+f+f"), Some((15, 15, 15)));
    assert!(is_hex_sliceable("#ffffff"));
    assert!(!is_hex_sliceable("#aéxyz"));
}

#[test]
fn configured_colors() {
    let mut colors = ColorsConfig::default();
    assert!(colors.all_sliceable());
    assert_eq!(colors.time_elapsed(), Color::Rgb(0xe1, 0x6a, 0x7c));
    assert_eq!(colors.album_color(), Color::Rgb(0x26, 0xa0, 0xa1));
    colors.time_elapsed = "not a color".to_string();
    assert_eq!(colors.time_elapsed(), Color::White);
}

#[test]
fn default_configuration() {
    let c = Config::default();
    assert_eq!(c.mpd.address, "localhost:6600");
    assert_eq!(c.logging.level, "info");
    assert_eq!(c.logging.rotation_size_mb, 10);
    assert!(!c.pipewire.bit_perfect_enabled);
}
