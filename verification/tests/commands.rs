use serde_json::Value;

use shurectl::error::SettingError;
use shurectl::headless::{
    dispatch, found, open, opened, preset_delete, preset_list, read_state, removed, sent,
    set_command, state_read, stored, AfterFind, AfterOpen, AfterRead, AfterSend, Command, Note,
    OpenTarget, PresetCommand, Reply, Step,
};
use shurectl::json::{
    add_note, deleted_json, error_json, help_json, preset_list_json, run, saved_json, state_json,
};
use shurectl::presets::PresetSlot;
use shurectl::protocol::{
    AutoGain, AutoTone, CompressorPreset, DeviceCommand, DeviceModel, DeviceState, EqBand,
    HpfFrequency, InputMode, LedBehavior, LedBrightness, LedLiveTheme, LedPulsingTheme,
    LedSolidTheme, MicPosition, ReverbType, Settings,
};

fn device() -> DeviceState {
    let band = EqBand { enabled: true, gain_db: 5 };
    DeviceState {
        serial_number: String::new(),
        settings: Settings {
            mode: InputMode::Auto,
            gain_db: 30,
            muted: true,
            hpf: HpfFrequency::Off,
            auto_position: MicPosition::Far,
            auto_tone: AutoTone::Bright,
            auto_gain: AutoGain::Quiet,
            phantom_power: false,
            monitor_mix: 10,
            limiter_enabled: false,
            compressor: CompressorPreset::Off,
            eq_enabled: false,
            eq_bands: [band, band, band, band, band],
            denoiser_enabled: false,
            popper_stopper_enabled: true,
            tone: 4,
            mv6_gain_locked: false,
            mute_btn_disabled: true,
            playback_mix: 20,
            reverb_on_output: false,
            reverb_monitoring: true,
            reverb_type: ReverbType::Studio,
            reverb_intensity: 5,
            led_behavior: LedBehavior::Solid,
            led_brightness: LedBrightness::Low,
            led_live_theme: LedLiveTheme::Default,
            led_solid_theme: LedSolidTheme::Shure,
            led_pulsing_theme: LedPulsingTheme::Custom,
            led_solid_rgb: [0, 0, 0],
            led_pulsing_rgb: [0, 0, 0],
            led_live_edge_rgb: [0, 0, 0],
            led_live_middle_rgb: [0, 0, 0],
            led_live_interior_rgb: [0, 0, 0],
        },
    }
}

fn json(text: &str) -> Value {
    serde_json::from_str(text).unwrap()
}

fn refused(step: Step) -> String {
    match step {
        Step::Refuse { error } => error.message(""),
        _ => panic!("not refused"),
    }
}

#[test]
fn commands_start() {
    assert!(matches!(dispatch(Command::Get), Step::Open { next: AfterOpen::Get }));
    assert!(matches!(
        dispatch(Command::Preset { action: PresetCommand::List }),
        Step::List
    ));
    assert!(matches!(
        dispatch(Command::Preset { action: PresetCommand::Save { slot: 9 } }),
        Step::Open { next: AfterOpen::Save { slot: 9 } }
    ));
    assert!(matches!(
        dispatch(Command::Preset { action: PresetCommand::Load { slot: 2 } }),
        Step::Open { next: AfterOpen::Load { slot: 2 } }
    ));
    assert!(matches!(
        dispatch(Command::Preset { action: PresetCommand::Delete { slot: 2 } }),
        Step::Remove { index: 1, slot: 2 }
    ));
    assert_eq!(refused(preset_delete(5)), "slot must be 1..=4, got 5");
}

#[test]
fn the_help_on_settings_needs_no_device() {
    for word in ["help", "HELP", "Help"] {
        assert!(matches!(
            set_command(word.to_string(), None),
            Step::Done { reply: Reply::Help }
        ));
    }
    assert!(matches!(
        dispatch(Command::Change { setting: "help".to_string(), value: Some("x".to_string()) }),
        Step::Done { reply: Reply::Help }
    ));
    // White space makes it the name of a setting.
    assert_eq!(
        refused(set_command(" help".to_string(), None)),
        "a value is required: `set  help <value>` (run `set help` for options)"
    );
    assert!(matches!(
        set_command("gain".to_string(), None),
        Step::Refuse { error: SettingError::MissingValue { .. } }
    ));
}

#[test]
fn the_device_is_opened_by_path_or_found() {
    assert!(matches!(open(None), OpenTarget::Detected));
    match open(Some("/dev/hidraw3".to_string())) {
        OpenTarget::Path(p) => assert_eq!(p, "/dev/hidraw3"),
        OpenTarget::Detected => panic!(),
    }
}

#[test]
fn a_change_goes_from_step_to_step() {
    let next = match set_command("Monitor_Mix".to_string(), Some(" 40 ".to_string())) {
        Step::Open { next } => next,
        _ => panic!(),
    };
    let next = match opened(next, DeviceModel::Mv6) {
        Step::Send { commands, next } => {
            assert_eq!(commands.len(), 1);
            assert!(matches!(commands[0], DeviceCommand::Mv6MonitorMix(40)));
            next
        }
        _ => panic!(),
    };
    let next = match sent(next) {
        Step::Read { next } => next,
        _ => panic!(),
    };
    let full = read_state(device(), "SN7".to_string());
    match state_read(next, full) {
        Step::Done { reply: Reply::State { model, state, body, note } } => {
            assert_eq!(model, DeviceModel::Mv6);
            assert_eq!(state.serial_number, "SN7");
            assert_eq!(body.name, "");
            assert_eq!(format!("{:?}", body.settings), format!("{:?}", device().settings));
            match note {
                Some(Note::Applied { setting, value }) => {
                    assert_eq!(setting, "monitor-mix");
                    assert_eq!(value, " 40 ");
                }
                _ => panic!(),
            }
        }
        _ => panic!(),
    }
}

#[test]
fn a_bad_change_is_refused_before_anything_is_sent() {
    let change = |setting: &str, value: &str| AfterOpen::Change {
        setting: setting.to_string(),
        value: value.to_string(),
    };
    assert_eq!(
        refused(opened(change("Phantom", "on"), DeviceModel::Mv6)),
        "setting 'phantom' is not supported on MV6"
    );
    assert_eq!(
        refused(opened(change("gain", "61"), DeviceModel::Mvx2u)),
        "value 61 out of range 0..=60"
    );
    assert_eq!(
        refused(opened(change("tone", "-11"), DeviceModel::Mv6)),
        "value -11 out of range -10..=10"
    );
    assert_eq!(
        refused(opened(change("mode", "semi"), DeviceModel::Mv6)),
        "invalid value 'semi' (unknown variant `semi`, expected `auto` or `manual`)"
    );
}

#[test]
fn a_state_is_reported() {
    let next = match opened(AfterOpen::Get, DeviceModel::Mv7Plus) {
        Step::Read { next } => next,
        _ => panic!(),
    };
    assert!(matches!(
        state_read(next, device()),
        Step::Done { reply: Reply::State { model: DeviceModel::Mv7Plus, note: None, .. } }
    ));
}

#[test]
fn what_was_saved_is_sent_again() {
    let next = match opened(AfterOpen::Save { slot: 3 }, DeviceModel::Mv6) {
        Step::Read { next } => next,
        _ => panic!(),
    };
    let next = match state_read(next, device()) {
        Step::Find { index: 2, next } => next,
        _ => panic!(),
    };
    let data = match found(next, None) {
        Step::Store { index: 2, slot: 3, data } => data,
        _ => panic!(),
    };
    assert_eq!(data.name, "Preset 3");
    match stored(3, data.clone()) {
        Reply::Saved { slot: 3, data } => assert_eq!(data.name, "Preset 3"),
        _ => panic!(),
    }

    let next = match opened(AfterOpen::Load { slot: 3 }, DeviceModel::Mv6) {
        Step::Find { index: 2, next } => next,
        _ => panic!(),
    };
    let next = match found(next, Some(data)) {
        Step::Read { next } => next,
        _ => panic!(),
    };
    // The device was changed in between.
    let mut other = device();
    other.settings.gain_db = 1;
    other.settings.tone = -9;
    let next = match state_read(next, other) {
        Step::Send { commands, next } => {
            assert!(matches!(commands[1], DeviceCommand::Gain(30)));
            assert!(matches!(commands[7], DeviceCommand::Mv6Tone(4)));
            next
        }
        _ => panic!(),
    };
    assert!(matches!(&next, AfterSend::Load { slot: 3, .. }));
    match sent(next) {
        Step::Read { next: AfterRead::Report { model: DeviceModel::Mv6, note: Some(Note::Loaded { slot: 3, name }) } } => {
            assert_eq!(name, "Preset 3")
        }
        _ => panic!(),
    }
}

#[test]
fn saving_keeps_the_name_of_the_slot() {
    let named = PresetSlot::from_device_state("Night".to_string(), &device());
    let mut state = device();
    state.settings.gain_db = 7;
    match found(AfterFind::Save { slot: 1, index: 0, state }, Some(named)) {
        Step::Store { index: 0, slot: 1, data } => {
            assert_eq!(data.name, "Night");
            assert_eq!(data.settings.gain_db, 7);
        }
        _ => panic!(),
    }
}

#[test]
fn slots_that_are_empty_or_missing_are_refused() {
    assert_eq!(
        refused(found(AfterFind::Load { model: DeviceModel::Mv6, slot: 2 }, None)),
        "preset slot 2 is empty"
    );
    assert_eq!(
        refused(opened(AfterOpen::Save { slot: 0 }, DeviceModel::Mv6)),
        "slot must be 1..=4, got 0"
    );
    assert_eq!(
        refused(opened(AfterOpen::Load { slot: 5 }, DeviceModel::Mv6)),
        "slot must be 1..=4, got 5"
    );
}

#[test]
fn a_report_leaves_the_name_out() {
    let slot = json(r#"{"name": "", "gain_db": 30}"#);
    let mut state = device();
    state.serial_number = "SN \"7\"".to_string();
    let report = state_json(DeviceModel::Mvx2uGen2, &state, slot);
    assert_eq!(
        report,
        json(r#"{"model": "MVX2U Gen 2", "serial": "SN \"7\"", "settings": {"gain_db": 30}}"#)
    );
    let applied = Note::Applied { setting: "gain".to_string(), value: "30".to_string() };
    assert_eq!(
        add_note(report.clone(), &applied),
        json(
            r#"{"model": "MVX2U Gen 2", "serial": "SN \"7\"", "settings": {"gain_db": 30},
                "applied": {"setting": "gain", "value": "30"}}"#
        )
    );
    let loaded = Note::Loaded { slot: 4, name: "Night".to_string() };
    assert_eq!(
        add_note(report, &loaded),
        json(
            r#"{"model": "MVX2U Gen 2", "serial": "SN \"7\"", "settings": {"gain_db": 30},
                "loaded": {"slot": 4, "name": "Night"}}"#
        )
    );
}

#[test]
fn notes_are_only_added_to_objects() {
    let applied = Note::Applied { setting: "gain".to_string(), value: "30".to_string() };
    assert_eq!(add_note(json("[1]"), &applied), json("[1]"));
}

#[test]
fn presets_are_listed() {
    let list = preset_list_json(vec![None, Some(json(r#"{"name": "A"}"#))]);
    assert_eq!(
        list,
        json(
            r#"{"presets": [{"slot": 1, "filled": false},
                {"slot": 2, "filled": true, "preset": {"name": "A"}}]}"#
        )
    );
    match preset_list(vec![None, None]) {
        Reply::Presets { all } => assert_eq!(all.len(), 2),
        _ => panic!(),
    }
}

#[test]
fn saving_and_deleting_are_answered() {
    assert_eq!(
        saved_json(2, "A", json(r#"{"name": "A"}"#)),
        json(r#"{"saved": {"slot": 2, "name": "A"}, "preset": {"name": "A"}}"#)
    );
    assert_eq!(deleted_json(12), json(r#"{"deleted": {"slot": 12}}"#));
    assert!(matches!(removed(3), Reply::Deleted { slot: 3 }));
}

#[test]
fn the_help_describes_every_setting() {
    let help = help_json();
    let entries = help["settings"].as_array().unwrap();
    assert_eq!(entries.len(), 43);
    assert_eq!(
        entries[8],
        json(r#"{"setting": "eq", "values": "on | off (master enable)", "models": ["MVX2U"]}"#)
    );
    assert_eq!(
        entries[41],
        json(
            r#"{"setting": "eq5", "values": "gain in dB, -8.0 to +6.0",
                "models": ["MVX2U", "MVX2U Gen 2"]}"#
        )
    );
}

#[test]
fn answers_are_printed_with_their_failure() {
    let out = run(Ok(deleted_json(1))).unwrap();
    assert!(!out.failed);
    assert_eq!(out.text, "{\n  \"deleted\": {\n    \"slot\": 1\n  }\n}");
    let out = run(Err("no \"device\"".to_string())).unwrap();
    assert!(out.failed);
    assert_eq!(out.text, "{\n  \"error\": \"no \\\"device\\\"\"\n}");
    assert_eq!(error_json("x"), json(r#"{"error": "x"}"#));
}
