use zarumet::pipewire::{
    add_rates_from_groups,
    extract_rates_from_description, extract_rates_from_format_string, merge_discovered_rates,
    parse_allowed_rates, rates_from_metadata_output, resolve_bit_perfect_rate,
    sample_rate_details, sample_rate_operation, supported_rates_from, PipewireConfig,
    SupportedRatesCache,
};

#[test]
fn song_rate_used_when_supported() {
    assert_eq!(resolve_bit_perfect_rate(96000, &[44100, 48000, 96000]), 96000);
}

#[test]
fn best_divisor_when_not_supported() {
    assert_eq!(resolve_bit_perfect_rate(176400, &[44100, 48000, 88200, 96000]), 88200);
    assert_eq!(resolve_bit_perfect_rate(192000, &[44100, 48000, 96000]), 96000);
}

#[test]
fn fallbacks_when_nothing_divides() {
    assert_eq!(resolve_bit_perfect_rate(22050, &[48000, 44100]), 44100);
    assert_eq!(resolve_bit_perfect_rate(22050, &[48000, 96000]), 44100);
    assert_eq!(resolve_bit_perfect_rate(44100, &[48000, 96000]), 44100);
    assert_eq!(resolve_bit_perfect_rate(22050, &[]), 44100);
}

#[test]
fn availability_needs_linux_and_the_setting() {
    let on = PipewireConfig { bit_perfect_enabled: true };
    assert!(on.is_available(true));
    assert!(!on.is_available(false));
    assert!(!PipewireConfig::default().is_available(true));
}

#[test]
fn allowed_rates_values() {
    assert_eq!(parse_allowed_rates("[ 44100, 48000, 96000 ]"), vec![44100, 48000, 96000]);
    assert_eq!(parse_allowed_rates("[ 96000 44100 44100 ]"), vec![44100, 96000]);
    assert_eq!(parse_allowed_rates("[ 4000, 500000, 48000 ]"), vec![48000]);
    assert!(parse_allowed_rates("[ ]").is_empty());
}

#[test]
fn metadata_output() {
    let out = "Found \"settings\" metadata 31\n\
update: id:0 key:'log.level' value:'2' type:''\n\
update: id:0 key:'clock.allowed-rates' value:'[ 44100, 48000, 96000 ]' type:''\n";
    assert_eq!(rates_from_metadata_output(out), Some(vec![44100, 48000, 96000]));
    assert_eq!(rates_from_metadata_output("update: id:0 key:'clock.rate' value:'48000' type:''"), None);
    let empty = "update: id:0 key:'clock.allowed-rates' value:'[ ]' type:''\n";
    assert_eq!(rates_from_metadata_output(empty), None);
}

#[test]
fn supported_rates_sources() {
    assert_eq!(supported_rates_from(Some(vec![48000]), Some(vec![44100])), vec![48000]);
    assert_eq!(supported_rates_from(Some(vec![]), Some(vec![44100])), vec![44100]);
    assert_eq!(
        supported_rates_from(None, None),
        vec![44100, 48000, 88200, 96000, 176400, 192000, 352800, 384000]
    );
}

#[test]
fn sample_rate_log_texts() {
    assert_eq!(sample_rate_operation(0), "reset_sample_rate");
    assert_eq!(sample_rate_operation(48000), "set_sample_rate");
    assert_eq!(sample_rate_details(0), "automatic");
    assert_eq!(sample_rate_details(48000), "48000 Hz");
}

#[test]
fn rates_are_cached_once() {
    let mut cache = SupportedRatesCache::new();
    assert_eq!(cache.get_supported_rates(), None);
    assert_eq!(cache.initialize_supported_rates(Err("no daemon".to_string())), Err("no daemon".to_string()));
    assert_eq!(cache.get_supported_rates(), None);
    assert_eq!(cache.initialize_supported_rates(Ok(vec![44100, 48000])), Ok(vec![44100, 48000]));
    assert_eq!(cache.get_supported_rates(), Some(vec![44100, 48000]));
    // Later discoveries change nothing.
    assert_eq!(cache.initialize_supported_rates(Ok(vec![96000])), Ok(vec![44100, 48000]));
    assert_eq!(cache.initialize_supported_rates(Err("gone".to_string())), Ok(vec![44100, 48000]));
    assert_eq!(cache.get_supported_rates(), Some(vec![44100, 48000]));
}

#[test]
fn discovered_rates_are_merged() {
    assert_eq!(merge_discovered_rates(&vec![]), vec![44100, 48000, 88200, 96000, 192000]);
    assert_eq!(
        merge_discovered_rates(&vec![384000, 22050, 48000]),
        vec![22050, 44100, 48000, 88200, 96000, 192000, 384000]
    );
}

#[test]
fn rates_in_format_strings() {
    let mut rates = vec![44100];
    extract_rates_from_format_string("S32LE 48000 2 44100 96000 500000 7999", &mut rates);
    assert_eq!(rates, vec![44100, 48000, 96000]);
}

#[test]
fn rates_in_descriptions() {
    let mut rates = Vec::new();
    extract_rates_from_description("Analog Stereo 48000 Hz, also 96kHz and 44 khz", &mut rates);
    assert_eq!(rates, vec![48000, 96000, 44000]);
    let mut more = vec![48000];
    extract_rates_from_description("48000Hz 192kHz 1kHz", &mut more);
    assert_eq!(more, vec![48000, 192000]);
    let mut none = Vec::new();
    extract_rates_from_description("99999999kHz", &mut none);
    assert!(none.is_empty());
}

#[test]
fn rates_from_captured_groups() {
    let mut rates = vec![44100];
    let hz = Some(vec![Some("48000".to_string()), None]);
    let khz = Some(vec![Some("96".to_string()), Some("99999999".to_string())]);
    let khz_lower = None;
    add_rates_from_groups(&hz, &khz, &khz_lower, &mut rates);
    assert_eq!(rates, vec![44100, 48000, 96000]);
}
