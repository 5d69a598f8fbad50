use zarumet::cli::{parse_on_off, Args};
use zarumet::logging::{
    log_config_loading, log_level_for, log_mpd_command, log_mpd_connection,
    log_pipewire_operation, log_shutdown_info, log_user_interaction, LogLevel,
};
use zarumet::saved_state::{bit_perfect_state_text, load_bit_perfect_state, parse_bit_perfect_state};

#[test]
fn on_off_values() {
    assert_eq!(parse_on_off("on"), Ok(true));
    assert_eq!(parse_on_off("OFF"), Ok(false));
    assert_eq!(parse_on_off("On"), Ok(true));
    assert_eq!(
        parse_on_off("maybe"),
        Err("Invalid value 'maybe': expected 'on' or 'off'".to_string())
    );
    assert_eq!(
        parse_on_off(""),
        Err("Invalid value '': expected 'on' or 'off'".to_string())
    );
}

#[test]
fn command_line_setting_comes_first() {
    let args = Args { config: None, address: None, bit_perfect: Some(false) };
    assert!(!args.bit_perfect_or(true));
    let args = Args { config: None, address: None, bit_perfect: None };
    assert!(args.bit_perfect_or(true));
    assert!(!args.bit_perfect_or(false));
}

#[test]
fn saved_state_round_trip() {
    assert_eq!(bit_perfect_state_text(true), "bit_perfect = true\n");
    assert_eq!(bit_perfect_state_text(false), "bit_perfect = false\n");
    assert!(parse_bit_perfect_state(&bit_perfect_state_text(true)));
    assert!(!parse_bit_perfect_state(&bit_perfect_state_text(false)));
}

#[test]
fn saved_state_reading() {
    assert!(parse_bit_perfect_state("# state\nbit_perfect=true"));
    assert!(parse_bit_perfect_state("bit_perfect =   true   \r\nother = 1\n"));
    assert!(!parse_bit_perfect_state("bit_perfect = yes\n"));
    assert!(!parse_bit_perfect_state("bit_perfect true\n"));
    // Only the first such line counts.
    assert!(!parse_bit_perfect_state("bit_perfect = false\nbit_perfect = true\n"));
    assert!(!parse_bit_perfect_state(" bit_perfect = true\n"));
    assert!(!parse_bit_perfect_state(""));
    assert!(load_bit_perfect_state(Some("bit_perfect = true\n")));
    assert!(!load_bit_perfect_state(None));
}

#[test]
fn log_levels() {
    assert_eq!(log_level_for("error", false), LogLevel::Error);
    assert_eq!(log_level_for("warn", false), LogLevel::Warn);
    assert_eq!(log_level_for("info", false), LogLevel::Info);
    assert_eq!(log_level_for("debug", false), LogLevel::Debug);
    assert_eq!(log_level_for("trace", false), LogLevel::Trace);
    assert_eq!(log_level_for("loud", false), LogLevel::Info);
    assert_eq!(log_level_for("error", true), LogLevel::Debug);
}

#[test]
fn log_records() {
    let r = log_shutdown_info();
    assert_eq!(r.level, LogLevel::Info);
    assert_eq!(r.message, "=== Zarumet Shutting Down ===");

    let ok = log_mpd_connection("localhost:6600", true, None);
    assert_eq!(ok.level, LogLevel::Info);
    assert_eq!(ok.message, "Successfully connected to MPD at: localhost:6600");
    let bad = log_mpd_connection("localhost:6600", false, Some("refused"));
    assert_eq!(bad.level, LogLevel::Error);
    assert_eq!(bad.message, "Failed to connect to MPD at: localhost:6600 - refused");
    let unknown = log_mpd_connection("x", false, None);
    assert_eq!(unknown.message, "Failed to connect to MPD at: x - Unknown error");

    let c = log_mpd_command("play", true, None);
    assert_eq!(c.level, LogLevel::Debug);
    assert_eq!(c.message, "MPD command executed successfully: play");
    let f = log_mpd_command("play", false, None);
    assert_eq!(f.level, LogLevel::Warn);
    assert_eq!(f.message, "MPD command failed: play - Unknown error");

    assert_eq!(
        log_user_interaction("Next", Some("menu:Queue")).message,
        "User action: Next - menu:Queue"
    );
    assert_eq!(log_user_interaction("Next", None).message, "User action: Next");

    assert_eq!(
        log_config_loading("/tmp/c.toml", true).message,
        "Created default config file at: /tmp/c.toml"
    );
    assert_eq!(
        log_config_loading("/tmp/c.toml", false).message,
        "Loaded config file from: /tmp/c.toml"
    );

    assert_eq!(
        log_pipewire_operation("set_sample_rate", true, Some("48000 Hz")).message,
        "PipeWire operation successful: set_sample_rate"
    );
    let p = log_pipewire_operation("reset_sample_rate", false, Some("no daemon"));
    assert_eq!(p.level, LogLevel::Warn);
    assert_eq!(p.message, "PipeWire operation failed: reset_sample_rate - no daemon");
}
