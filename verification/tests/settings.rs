use shurectl::catalog::{catalog, ensure_supported, eq_band, find_setting, Setting};
use shurectl::error::SettingError;
use shurectl::number::IntFault;
use shurectl::protocol::{
    CompressorPreset, DeviceCommand, DeviceModel, HpfFrequency, InputMode, LedBrightness,
    LedLiveTheme, ReverbType,
};
use shurectl::settings::{apply_setting, dispatch_set};
use shurectl::token::Token;
use shurectl::value::{
    normalize, parse_bool, parse_db_tenths, parse_demo_model, parse_i8_range, parse_rgb,
    parse_token, parse_u8_max, slot_index,
};

use shurectl::protocol::DeviceModel::{Mv6, Mv7Plus, Mvx2u, Mvx2uGen2};

fn message<T>(r: Result<T, SettingError>) -> String {
    match r {
        Ok(_) => panic!("expected an error"),
        Err(e) => e.message("?"),
    }
}

#[test]
fn parse_bool_accepts_common_forms() {
    for s in ["on", "ON", "true", "1", "yes", "enabled"] {
        assert!(parse_bool(s).unwrap());
    }
    for s in ["off", "OFF", "false", "0", "no", "disabled"] {
        assert!(!parse_bool(s).unwrap());
    }
    assert!(parse_bool("maybe").is_err());
}

#[test]
fn parse_u8_max_enforces_bound() {
    assert_eq!(parse_u8_max("24", 36).unwrap(), 24);
    assert_eq!(parse_u8_max("0", 36).unwrap(), 0);
    assert!(parse_u8_max("37", 36).is_err());
    assert!(parse_u8_max("-1", 36).is_err());
    assert!(parse_u8_max("x", 36).is_err());
}

#[test]
fn parse_i8_range_enforces_bounds() {
    assert_eq!(parse_i8_range("-10", -10, 10).unwrap(), -10);
    assert_eq!(parse_i8_range("10", -10, 10).unwrap(), 10);
    assert!(parse_i8_range("11", -10, 10).is_err());
    assert!(parse_i8_range("-11", -10, 10).is_err());
}

#[test]
fn parse_db_tenths_rounds_and_bounds() {
    let cases = vec![
        ("0", 0i16),
        ("2", 20),
        ("2.5", 25),
        ("-8", -80),
        ("6", 60),
        ("-7.95", -80),
    ];
    for (input, expected) in cases {
        assert_eq!(parse_db_tenths(input).unwrap(), expected, "input {input}");
    }
    assert!(parse_db_tenths("6.1").is_err());
    assert!(parse_db_tenths("-8.1").is_err());
}

#[test]
fn parse_rgb_accepts_hex_and_decimal() {
    assert_eq!(parse_rgb("B2FF33").unwrap(), [0xB2, 0xFF, 0x33]);
    assert_eq!(parse_rgb("#b2ff33").unwrap(), [0xB2, 0xFF, 0x33]);
    assert_eq!(parse_rgb("178,255,51").unwrap(), [178, 255, 51]);
    assert!(parse_rgb("178,255").is_err());
    assert!(parse_rgb("GGGGGG").is_err());
}

#[test]
fn parse_token_maps_enum_variants() {
    let c: CompressorPreset = parse_token("medium").unwrap();
    assert_eq!(c, CompressorPreset::Medium);
    let h: HpfFrequency = parse_token("HZ75").unwrap();
    assert_eq!(h, HpfFrequency::Hz75);
    let r: Result<ReverbType, SettingError> = parse_token("nope");
    assert!(r.is_err());
}

#[test]
fn eq_band_parses_gain_and_enable() {
    assert_eq!(eq_band("eq1"), Some((0, false)));
    assert_eq!(eq_band("eq5"), Some((4, false)));
    assert_eq!(eq_band("eq3-enable"), Some((2, true)));
    assert_eq!(eq_band("eq6"), None);
    assert_eq!(eq_band("eq0"), None);
    assert_eq!(eq_band("gain"), None);
}

#[test]
fn normalize_unifies_separators_and_case() {
    assert_eq!(normalize("Monitor_Mix"), "monitor-mix");
    assert_eq!(normalize("  GAIN  "), "gain");
}

#[test]
fn ensure_supported_respects_model_applicability() {
    assert!(ensure_supported(Mvx2u, "gain").is_ok());
    assert!(ensure_supported(Mv6, "gain").is_ok());
    // phantom is XLR-only.
    assert!(ensure_supported(Mvx2u, "phantom").is_ok());
    assert!(ensure_supported(Mv6, "phantom").is_err());
    // LED is MV7+ only.
    assert!(ensure_supported(Mv7Plus, "led-behavior").is_ok());
    assert!(ensure_supported(Mv6, "led-behavior").is_err());
    // EQ bands are MVX2U gen1/gen2; enables are gen1 only.
    assert!(ensure_supported(Mvx2uGen2, "eq3").is_ok());
    assert!(ensure_supported(Mv6, "eq3").is_err());
    assert!(ensure_supported(Mvx2uGen2, "eq3-enable").is_err());
    assert!(ensure_supported(Mvx2u, "eq3-enable").is_ok());
    // Unknown setting.
    assert!(ensure_supported(Mvx2u, "nonsense").is_err());
}

#[test]
fn every_catalog_entry_has_a_dispatch_arm() {
    let handled: std::collections::HashSet<&str> = [
        "gain",
        "mode",
        "mute",
        "hpf",
        "monitor-mix",
        "phantom",
        "limiter",
        "compressor",
        "eq",
        "lock",
        "auto-position",
        "auto-tone",
        "auto-gain",
        "denoiser",
        "popper-stopper",
        "tone",
        "gain-lock",
        "mute-button-disable",
        "playback-mix",
        "reverb-output",
        "reverb-monitor",
        "reverb-type",
        "reverb-intensity",
        "led-behavior",
        "led-brightness",
        "led-live-theme",
        "led-solid-theme",
        "led-pulsing-theme",
        "led-solid-rgb",
        "led-pulsing-rgb",
        "led-live-edge-rgb",
        "led-live-middle-rgb",
        "led-live-interior-rgb",
    ]
    .into_iter()
    .collect();

    for spec in catalog() {
        let known = handled.contains(spec.name.as_str()) || eq_band(&spec.name).is_some();
        assert!(known, "catalog entry '{}' has no dispatch arm", spec.name);
        // The handlers themselves know the name too.
        let r = dispatch_set(Mvx2u, &spec.name, "");
        assert!(!matches!(r, Err(SettingError::NoHandler { .. })), "{}", spec.name);
    }
    assert_eq!(catalog().len(), handled.len() + 10);
}

#[test]
fn on_off_ignores_white_space_and_case() {
    assert!(parse_bool("\t Yes\u{a0}").unwrap());
    assert!(!parse_bool(" DISABLED\n").unwrap());
    assert_eq!(message(parse_bool(" maybe ")), "expected on/off, got ' maybe '");
}

#[test]
fn whole_numbers_take_a_plus_sign_and_report_faults() {
    assert_eq!(parse_u8_max(" +7 ", 36).unwrap(), 7);
    assert_eq!(parse_u8_max("007", 36).unwrap(), 7);
    assert_eq!(parse_i8_range("+3", -10, 10).unwrap(), 3);
    assert_eq!(message(parse_u8_max("37", 36)), "value 37 out of range 0..=36");
    assert_eq!(message(parse_u8_max("256", 36)), "expected an integer 0..=36, got '256'");
    assert_eq!(message(parse_u8_max("", 100)), "expected an integer 0..=100, got ''");
    assert_eq!(message(parse_u8_max("+", 100)), "expected an integer 0..=100, got '+'");
    assert_eq!(message(parse_i8_range("-11", -10, 10)), "value -11 out of range -10..=10");
    assert_eq!(message(parse_i8_range("128", -10, 10)), "expected an integer -10..=10, got '128'");
    assert_eq!(message(parse_i8_range("-129", -10, 10)), "expected an integer -10..=10, got '-129'");
    assert_eq!(parse_i8_range("-128", -128, 127).unwrap(), -128);
}

/// What single-precision arithmetic makes of a gain: no number, out of range,
/// or tenths.
fn by_float(value: &str) -> Option<Option<i16>> {
    let db: f32 = match value.trim().parse() {
        Ok(db) => db,
        Err(_) => return None,
    };
    let tenths = (db * 10.0).round() as i16;
    if (-80..=60).contains(&tenths) {
        Some(Some(tenths))
    } else {
        Some(None)
    }
}

fn by_library(value: &str) -> Option<Option<i16>> {
    match parse_db_tenths(value) {
        Ok(t) => Some(Some(t)),
        Err(SettingError::GainOutOfRange { .. }) => Some(None),
        Err(SettingError::NotDecibels { .. }) => None,
        Err(_) => panic!("unexpected error for {value}"),
    }
}

#[test]
fn gains_round_as_single_precision_does() {
    for input in [
        "", ".", "+", "-", "e", "e5", ".e5", "1e", "1e+", "1 2", "1,5", "0x1", "1__", "--1", "+-1",
        "1.2.3", "1e5.0", "abc", "i", "in", "infin", "na", "nano", "1f", "\u{661}",
        "1.", ".5", "-.5", "+.5", "5.e-1", "50e-1", "0.05E2", "1e0", "1E+0", "-0", "+0.0", "0e99999",
        "inf", "-INF", "+Infinity", "infinity", " 2.5 ",
        "0.05", "0.04999999", "0.049999999999", "0.0500000001", "0.15", "0.25", "0.35", "5.95",
        "6.04", "6.05", "6.049999", "6.0499997", "6.04999999", "-8.05", "-8.04", "-8.0499999",
        "7.94999999", "-7.9499999999", "-7.94999980", "-7.94999981", "-7.9499998092651367",
        "-7.94999980926513671875", "-7.949999809265136718750000000000000000000000000001",
        "1e39", "-1e39", "1e400", "1e-400", "1e999999999999999999999999999999999999999",
        "1e-999999999999999999999999999999999999999", "0e999999999999999999999999999999999999999",
        "340282350000000000000000000000000000000", "15.99999999", "16", "16.1", "0.015625", "0.0156",
        "0.0000000000000000000000000000000000000000000000000000000000005e61",
        "500000000000000000000000000000000000000000000000000000000000e-59",
    ] {
        assert_eq!(by_library(input), by_float(input), "input {input}");
    }
}

#[test]
fn gains_near_every_tie_round_as_single_precision_does() {
    // Around each half tenth, with more digits than single precision holds.
    let mut n: i64 = -900;
    while n <= 700 {
        for off in [-1i64, 0, 1, 3, 7, 50, 123, 456, 999, 4321, 99999] {
            let v = n * 1_000_000_000 + 500_000_000 * (n % 2) + off * 10;
            for scale in [1i64, -1] {
                let x = v + scale * off;
                let s = format!("{}{}.{:010}", if x < 0 { "-" } else { "" }, x.abs() / 10_000_000_000, x.abs() % 10_000_000_000);
                assert_eq!(by_library(&s), by_float(&s), "input {s}");
            }
        }
        n += 1;
    }
}

#[test]
fn gains_over_a_range_round_as_single_precision_does() {
    let mut seed: u64 = 0x2545F4914F6CDD1D;
    for _ in 0..20000 {
        seed ^= seed << 13;
        seed ^= seed >> 7;
        seed ^= seed << 17;
        let whole = seed % 10;
        let frac = (seed >> 8) % 1_000_000_000;
        let digits = 1 + (seed >> 40) as usize % 9;
        let text = format!("{:09}", frac);
        let s = format!("{}{}.{}", if seed & 1 == 0 { "-" } else { "" }, whole, &text[..digits]);
        assert_eq!(by_library(&s), by_float(&s), "input {s}");
    }
}

#[test]
fn not_a_number_is_no_gain() {
    for input in ["nan", "NaN", "-nan", "+NAN", " nan "] {
        assert!(parse_db_tenths(input).is_err(), "input {input}");
        assert!(matches!(parse_db_tenths(input), Err(SettingError::GainOutOfRange { .. })));
        assert!(apply_setting(Mvx2u, "eq3", input).is_err());
    }
    match parse_db_tenths("NaN") {
        Err(e) => assert_eq!(e.message("NaN"), "EQ gain NaN dB out of range -8.0..=6.0"),
        Ok(_) => panic!(),
    }
}

#[test]
fn gain_faults_are_told_apart() {
    assert_eq!(message(parse_db_tenths("loud")), "expected a number in dB, got 'loud'");
    match parse_db_tenths("6.1") {
        Err(e) => assert_eq!(e.message("6.1"), "EQ gain 6.1 dB out of range -8.0..=6.0"),
        Ok(_) => panic!(),
    }
}

#[test]
fn colors_follow_their_forms() {
    assert_eq!(parse_rgb("  ##0a0B0c ").unwrap(), [10, 11, 12]);
    assert_eq!(parse_rgb("#1, +2 ,003").unwrap(), [1, 2, 3]);
    assert_eq!(message(parse_rgb("178,255")), "invalid color '178,255'; expected hex RRGGBB or r,g,b");
    assert_eq!(message(parse_rgb("1,2,3,4")), "invalid color '1,2,3,4'; expected hex RRGGBB or r,g,b");
    assert_eq!(message(parse_rgb("12345")), "invalid color '12345'; expected hex RRGGBB or r,g,b");
    assert_eq!(message(parse_rgb("1,,3")), "cannot parse integer from empty string");
    assert_eq!(message(parse_rgb("1,2,x")), "invalid digit found in string");
    assert_eq!(message(parse_rgb("300,x,1")), "number too large to fit in target type");
    assert_eq!(message(parse_rgb("-1,2,3")), "invalid digit found in string");
    assert!(matches!(parse_rgb("+,2,3"), Err(SettingError::BadComponent { fault: IntFault::InvalidDigit })));
    // The messages are those of the standard parser.
    for part in ["", "x", "300", "+", "-", "-0", "+5", "25x", "300x", "2x5", "0000255", "256"] {
        let text = format!("{part},0,0");
        match part.parse::<u8>() {
            Ok(n) => assert_eq!(parse_rgb(&text).unwrap(), [n, 0, 0], "part {part}"),
            Err(e) => assert_eq!(message(parse_rgb(&text)), e.to_string(), "part {part}"),
        }
    }
}

#[test]
fn words_read_back_as_their_values() {
    assert_eq!(parse_token::<InputMode>(InputMode::Manual.word()).unwrap(), InputMode::Manual);
    assert_eq!(parse_token::<HpfFrequency>(HpfFrequency::Hz150.word()).unwrap(), HpfFrequency::Hz150);
    for theme in [
        LedLiveTheme::Default,
        LedLiveTheme::Seaside,
        LedLiveTheme::Space,
        LedLiveTheme::Fruity,
        LedLiveTheme::Custom,
    ] {
        assert_eq!(parse_token::<LedLiveTheme>(theme.word()).unwrap(), theme);
    }
}

#[test]
fn unknown_words_are_reported_with_the_known_ones() {
    assert_eq!(
        message(parse_token::<ReverbType>(" Nope")),
        "invalid value ' Nope' (unknown variant `nope`, expected one of `plate`, `hall`, `studio`)"
    );
    assert_eq!(
        message(parse_token::<InputMode>("x at line 1 column 2")),
        "invalid value 'x at line 1 column 2' (unknown variant `x at line 1 column 2`, expected `auto` or `manual`)"
    );
    assert_eq!(
        message(parse_token::<LedBrightness>("")),
        "invalid value '' (unknown variant ``, expected one of `low`, `med`, `high`, `max`)"
    );
}

#[test]
fn bands_are_named_by_any_form_of_their_number() {
    assert_eq!(eq_band("eq+3"), Some((2, false)));
    assert_eq!(eq_band("eq005-enable"), Some((4, true)));
    assert_eq!(eq_band("eq-enable"), None);
    assert_eq!(eq_band("e"), None);
    assert_eq!(eq_band("eq99999999999999999999999999"), None);
    // Such forms are no names of the catalog.
    assert!(matches!(
        apply_setting(Mvx2u, "eq+3", "1"),
        Err(SettingError::UnknownSetting { .. })
    ));
}

#[test]
fn a_setting_becomes_a_command() {
    assert!(matches!(apply_setting(Mvx2u, "GAIN", "60"), Ok(DeviceCommand::Gain(60))));
    assert!(matches!(apply_setting(Mvx2u, "mode", "auto"), Ok(DeviceCommand::Mode(true))));
    assert!(matches!(apply_setting(Mvx2u, "mode", "manual"), Ok(DeviceCommand::Mode(false))));
    assert!(matches!(apply_setting(Mvx2u, "Monitor_Mix", "40"), Ok(DeviceCommand::MonitorMix(40))));
    assert!(matches!(apply_setting(Mv6, "monitor-mix", "40"), Ok(DeviceCommand::Mv6MonitorMix(40))));
    assert!(matches!(apply_setting(Mvx2u, "eq2", "-1.25"), Ok(DeviceCommand::EqBandGain(1, -13))));
    assert!(matches!(apply_setting(Mvx2u, "eq5-enable", "on"), Ok(DeviceCommand::EqBandEnable(4, true))));
    assert!(matches!(
        apply_setting(Mv7Plus, "led-solid-rgb", "1,2,3"),
        Ok(DeviceCommand::Mv7LedSolidColor([1, 2, 3]))
    ));
    assert!(matches!(apply_setting(Mv7Plus, "tone", "-10"), Ok(DeviceCommand::Mv6Tone(-10))));
}

#[test]
fn a_setting_is_refused_with_a_reason() {
    assert_eq!(message(apply_setting(Mv6, "gain", "37")), "value 37 out of range 0..=36");
    assert_eq!(message(apply_setting(Mv6, "Phantom", "on")), "setting 'phantom' is not supported on MV6");
    assert_eq!(
        message(apply_setting(Mvx2uGen2, "EQ1_enable", "on")),
        "setting 'eq1-enable' is not supported on MVX2U Gen 2"
    );
    assert_eq!(
        message(apply_setting(Mvx2u, " Nonsense", "on")),
        "unknown setting 'nonsense'. Run `shurectl set help` to list settings."
    );
    assert_eq!(
        message(dispatch_set(Mvx2u, "nonsense", "on")),
        "internal: no handler for setting 'nonsense'"
    );
}

#[test]
fn spelling_of_a_name_does_not_matter() {
    for name in ["led_live_edge_rgb", "LED-LIVE-EDGE-RGB", " Led_Live-Edge_Rgb\t"] {
        assert!(matches!(
            apply_setting(Mv7Plus, name, "000102"),
            Ok(DeviceCommand::Mv7LedLiveEdge([0, 1, 2]))
        ));
    }
    assert_eq!(normalize(&normalize(" A_b ")), normalize(" A_b "));
}

#[test]
fn names_find_their_settings() {
    assert_eq!(find_setting("gain"), Some(Setting::Gain));
    assert_eq!(find_setting("gain-lock"), Some(Setting::GainLock));
    assert_eq!(find_setting("eq1"), None);
    let mut names: Vec<String> = catalog().into_iter().map(|e| e.name).collect();
    let count = names.len();
    names.sort();
    names.dedup();
    assert_eq!(names.len(), count);
}

#[test]
fn the_catalog_keeps_its_order() {
    let all = catalog();
    assert_eq!(all[0].name, "gain");
    assert_eq!(all[0].values, "0-60 dB (MVX2U) or 0-36 dB (MV6, MV7+)");
    assert_eq!(all[0].models, &[Mvx2u, Mvx2uGen2, Mv6, Mv7Plus]);
    assert_eq!(all[32].name, "led-live-interior-rgb");
    assert_eq!(all[33].name, "eq1");
    assert_eq!(all[33].values, "gain in dB, -8.0 to +6.0");
    assert_eq!(all[42].name, "eq5-enable");
    assert_eq!(all[42].models, &[Mvx2u]);
}

#[test]
fn slots_count_from_one() {
    assert_eq!(slot_index(1).unwrap(), 0);
    assert_eq!(slot_index(4).unwrap(), 3);
    assert_eq!(message(slot_index(0)), "slot must be 1..=4, got 0");
    assert_eq!(message(slot_index(5)), "slot must be 1..=4, got 5");
}

#[test]
fn models_to_demonstrate_have_several_names() {
    assert_eq!(parse_demo_model("MVX2U").unwrap(), DeviceModel::Mvx2u);
    assert_eq!(parse_demo_model("mvx2u_gen2").unwrap(), DeviceModel::Mvx2uGen2);
    assert_eq!(parse_demo_model("mvx2ugen2").unwrap(), DeviceModel::Mvx2uGen2);
    assert_eq!(parse_demo_model("mv6").unwrap(), DeviceModel::Mv6);
    assert_eq!(parse_demo_model("MV7+").unwrap(), DeviceModel::Mv7Plus);
    assert_eq!(parse_demo_model("mv7plus").unwrap(), DeviceModel::Mv7Plus);
    assert_eq!(
        message(parse_demo_model("MV_5")),
        "unknown demo model \"mv-5\". Valid options: mvx2u, mvx2u-gen2, mv6, mv7plus"
    );
    assert!(parse_demo_model(" mv6").is_err());
}
