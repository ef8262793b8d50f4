use shurectl::actions::{apply_action, finish_action, refreshed, send_if_connected, Work};
use shurectl::app::{
    handle_key, poll_timeout, tick_is_over, App, DeviceAction, Focus, Key, KeyOutcome, Modifiers,
    Status, Tab,
};
use shurectl::presets::{
    apply_preset_to_device, default_preset_name, next_command, send_all, PresetSlot,
};
use shurectl::protocol::{
    AutoGain, AutoTone, CompressorPreset, DeviceCommand, DeviceModel, DeviceState, EqBand,
    HpfFrequency, InputMode, LedBehavior, LedBrightness, LedLiveTheme, LedPulsingTheme,
    LedSolidTheme, MicPosition, ReverbType, Settings,
};
use shurectl::startup::{choose_model, greet, list_devices, meter_unavailable, DeviceInfo};

fn settings() -> Settings {
    Settings {
        mode: InputMode::Manual,
        gain_db: 24,
        muted: false,
        hpf: HpfFrequency::Hz75,
        auto_position: MicPosition::Near,
        auto_tone: AutoTone::Natural,
        auto_gain: AutoGain::Normal,
        phantom_power: true,
        monitor_mix: 40,
        limiter_enabled: true,
        compressor: CompressorPreset::Medium,
        eq_enabled: true,
        eq_bands: [
            EqBand { enabled: true, gain_db: 10 },
            EqBand { enabled: false, gain_db: -20 },
            EqBand { enabled: true, gain_db: 30 },
            EqBand { enabled: false, gain_db: -40 },
            EqBand { enabled: true, gain_db: 50 },
        ],
        denoiser_enabled: true,
        popper_stopper_enabled: false,
        tone: -3,
        mv6_gain_locked: true,
        mute_btn_disabled: false,
        playback_mix: 70,
        reverb_on_output: true,
        reverb_monitoring: false,
        reverb_type: ReverbType::Hall,
        reverb_intensity: 55,
        led_behavior: LedBehavior::Live,
        led_brightness: LedBrightness::Med,
        led_live_theme: LedLiveTheme::Space,
        led_solid_theme: LedSolidTheme::Custom,
        led_pulsing_theme: LedPulsingTheme::Shure,
        led_solid_rgb: [1, 2, 3],
        led_pulsing_rgb: [4, 5, 6],
        led_live_edge_rgb: [7, 8, 9],
        led_live_middle_rgb: [10, 11, 12],
        led_live_interior_rgb: [13, 14, 15],
    }
}

fn state() -> DeviceState {
    DeviceState { serial_number: "SN1".to_string(), settings: settings() }
}

fn app(model: DeviceModel) -> App {
    App {
        demo_mode: false,
        device_model: model,
        device_state: state(),
        presets: vec![None, None, None, None],
        should_quit: false,
        editing_preset_name: false,
        editing_preset_index: 0,
        confirming_factory_reset: false,
        help_visible: false,
        active_tab: Tab::Other,
        focus: Focus::Other,
        status: Status { ok: true, text: String::new() },
    }
}

const PLAIN: Modifiers = Modifiers { control: false, shift: false };
const CONTROL: Modifiers = Modifiers { control: true, shift: false };
const SHIFT: Modifiers = Modifiers { control: false, shift: true };

fn shown<T: std::fmt::Debug>(t: &T) -> String {
    format!("{:?}", t)
}

fn slot(name: &str) -> PresetSlot {
    PresetSlot::from_device_state(name.to_string(), &state())
}

#[test]
fn quitting_keys() {
    for (key, mods, quits) in [
        (Key::Char('q'), PLAIN, true),
        (Key::Char('Q'), PLAIN, true),
        (Key::Char('c'), CONTROL, true),
        (Key::Char('c'), PLAIN, false),
        (Key::Esc, PLAIN, false),
    ] {
        let mut a = app(DeviceModel::Mvx2u);
        let outcome = handle_key(&mut a, key, mods);
        assert!(matches!(outcome, KeyOutcome::Nothing));
        assert_eq!(a.should_quit, quits);
    }
    // While a name is edited they neither quit nor write.
    let mut a = app(DeviceModel::Mvx2u);
    a.presets[1] = Some(slot("Talk"));
    a.editing_preset_name = true;
    a.editing_preset_index = 1;
    handle_key(&mut a, Key::Char('q'), PLAIN);
    handle_key(&mut a, Key::Char('c'), CONTROL);
    assert!(!a.should_quit);
    assert_eq!(a.presets[1].as_ref().unwrap().name, "Talk");
}

#[test]
fn names_are_edited_up_to_forty_bytes() {
    let mut a = app(DeviceModel::Mvx2u);
    a.presets[2] = Some(slot(""));
    a.focus = Focus::PresetName(2);
    assert!(matches!(handle_key(&mut a, Key::Enter, PLAIN), KeyOutcome::Nothing));
    assert!(a.editing_preset_name);
    assert_eq!(a.editing_preset_index, 2);
    for _ in 0..39 {
        handle_key(&mut a, Key::Char('x'), PLAIN);
    }
    // One more character may start below the limit and end above it.
    handle_key(&mut a, Key::Char('\u{1F3A4}'), PLAIN);
    assert_eq!(a.presets[2].as_ref().unwrap().name.len(), 43);
    handle_key(&mut a, Key::Char('y'), PLAIN);
    assert_eq!(a.presets[2].as_ref().unwrap().name.len(), 43);
    handle_key(&mut a, Key::Backspace, PLAIN);
    assert_eq!(a.presets[2].as_ref().unwrap().name, "x".repeat(39));
    // Keys with control held do not write.
    handle_key(&mut a, Key::Char('z'), CONTROL);
    handle_key(&mut a, Key::Up, PLAIN);
    assert_eq!(a.presets[2].as_ref().unwrap().name.len(), 39);
    let outcome = handle_key(&mut a, Key::Esc, PLAIN);
    assert!(matches!(outcome, KeyOutcome::Act(DeviceAction::PersistPresetName(2))));
    assert!(!a.editing_preset_name);
}

#[test]
fn an_empty_name_stays_empty() {
    let mut a = app(DeviceModel::Mvx2u);
    a.presets[0] = Some(slot(""));
    a.editing_preset_name = true;
    handle_key(&mut a, Key::Backspace, PLAIN);
    assert_eq!(a.presets[0].as_ref().unwrap().name, "");
    // A slot that holds nothing has no name to store.
    a.presets[0] = None;
    handle_key(&mut a, Key::Char('x'), PLAIN);
    assert!(matches!(handle_key(&mut a, Key::Enter, PLAIN), KeyOutcome::Nothing));
    assert!(!a.editing_preset_name);
}

#[test]
fn a_factory_reset_is_confirmed() {
    let mut a = app(DeviceModel::Mvx2u);
    a.focus = Focus::FactoryReset;
    assert!(matches!(handle_key(&mut a, Key::Char(' '), PLAIN), KeyOutcome::Nothing));
    assert!(a.confirming_factory_reset);
    assert!(!a.status.ok);
    assert_eq!(
        a.status.text,
        "! This will erase all device settings. Press Enter to confirm, any other key to cancel."
    );
    assert!(matches!(handle_key(&mut a, Key::Char('x'), PLAIN), KeyOutcome::Nothing));
    assert!(!a.confirming_factory_reset);
    assert!(a.status.ok);
    assert_eq!(a.status.text, "Factory reset cancelled.");
    handle_key(&mut a, Key::Enter, PLAIN);
    assert!(matches!(
        handle_key(&mut a, Key::Enter, PLAIN),
        KeyOutcome::Act(DeviceAction::FactoryReset)
    ));
    assert!(!a.confirming_factory_reset);
}

#[test]
fn help_is_shown_and_closed() {
    let mut a = app(DeviceModel::Mvx2u);
    handle_key(&mut a, Key::Char('?'), PLAIN);
    assert!(a.help_visible);
    assert!(matches!(handle_key(&mut a, Key::Char('r'), PLAIN), KeyOutcome::Nothing));
    assert!(a.help_visible);
    handle_key(&mut a, Key::Esc, PLAIN);
    assert!(!a.help_visible);
    assert!(matches!(
        handle_key(&mut a, Key::Char('r'), PLAIN),
        KeyOutcome::Act(DeviceAction::Refresh)
    ));
}

#[test]
fn keys_on_a_page() {
    let mut a = app(DeviceModel::Mvx2u);
    assert!(matches!(handle_key(&mut a, Key::Tab, PLAIN), KeyOutcome::NextTab));
    assert!(matches!(handle_key(&mut a, Key::Tab, SHIFT), KeyOutcome::PrevTab));
    assert!(matches!(handle_key(&mut a, Key::Up, PLAIN), KeyOutcome::FocusPrev));
    assert!(matches!(handle_key(&mut a, Key::Char('k'), PLAIN), KeyOutcome::FocusPrev));
    assert!(matches!(handle_key(&mut a, Key::Down, PLAIN), KeyOutcome::FocusNext));
    assert!(matches!(handle_key(&mut a, Key::Char('j'), PLAIN), KeyOutcome::FocusNext));
    assert!(matches!(handle_key(&mut a, Key::Left, PLAIN), KeyOutcome::Adjust(-1)));
    assert!(matches!(handle_key(&mut a, Key::Char('h'), PLAIN), KeyOutcome::Adjust(-1)));
    assert!(matches!(handle_key(&mut a, Key::Right, PLAIN), KeyOutcome::Adjust(1)));
    assert!(matches!(handle_key(&mut a, Key::Char('l'), PLAIN), KeyOutcome::Adjust(1)));
    assert!(matches!(handle_key(&mut a, Key::Enter, PLAIN), KeyOutcome::Toggle));
    assert!(matches!(handle_key(&mut a, Key::Char('f'), PLAIN), KeyOutcome::Nothing));
    assert!(matches!(handle_key(&mut a, Key::Other, PLAIN), KeyOutcome::Nothing));
    a.active_tab = Tab::Eq;
    assert!(matches!(
        handle_key(&mut a, Key::Char('f'), PLAIN),
        KeyOutcome::Act(DeviceAction::FlattenEq)
    ));
}

#[test]
fn keys_on_the_preset_page() {
    let mut a = app(DeviceModel::Mvx2u);
    a.focus = Focus::PresetActions(3);
    assert!(matches!(handle_key(&mut a, Key::Char('s'), PLAIN), KeyOutcome::Nothing));
    a.active_tab = Tab::Presets;
    assert!(matches!(
        handle_key(&mut a, Key::Char('s'), PLAIN),
        KeyOutcome::Act(DeviceAction::SavePreset(3))
    ));
    // Only a preset that exists can be deleted.
    assert!(matches!(handle_key(&mut a, Key::Char('d'), PLAIN), KeyOutcome::Nothing));
    a.presets[3] = Some(slot("Night"));
    assert!(matches!(
        handle_key(&mut a, Key::Delete, PLAIN),
        KeyOutcome::Act(DeviceAction::DeletePreset(3))
    ));
    a.focus = Focus::PresetName(0);
    assert!(matches!(
        handle_key(&mut a, Key::Char('s'), PLAIN),
        KeyOutcome::Act(DeviceAction::SavePreset(0))
    ));
    assert!(matches!(handle_key(&mut a, Key::Char('d'), PLAIN), KeyOutcome::Nothing));
    // A name is edited only where there is a preset.
    assert!(matches!(handle_key(&mut a, Key::Enter, PLAIN), KeyOutcome::Toggle));
}

fn told(action: DeviceAction, word: &str) -> (String, String) {
    let mut a = app(DeviceModel::Mv7Plus);
    let work = apply_action(&mut a, true, &action, word);
    assert!(a.status.ok);
    match work {
        Work::Send { commands } => (a.status.text, shown(&commands)),
        _ => panic!("nothing to send"),
    }
}

#[test]
fn changes_are_told_and_sent() {
    let cases = vec![
        (DeviceAction::SetGain(30), "", "Gain → 30 dB", "[Gain(30)]"),
        (DeviceAction::SetMode(InputMode::Auto), "Auto", "Mode → Auto", "[Mode(true)]"),
        (DeviceAction::SetAutoPosition(MicPosition::Far), "Far", "Mic Position → Far", "[AutoPosition(Far)]"),
        (DeviceAction::SetAutoTone(AutoTone::Dark), "Dark", "Tone → Dark", "[AutoTone(Dark)]"),
        (DeviceAction::SetAutoGain(AutoGain::Loud), "Loud", "Auto Gain → Loud", "[AutoGain(Loud)]"),
        (DeviceAction::SetMute(true), "", "Mute → ON", "[Mute(true)]"),
        (DeviceAction::SetPhantom(true), "", "Phantom → 48V ON", "[Phantom(true)]"),
        (DeviceAction::SetPhantom(false), "", "Phantom → OFF", "[Phantom(false)]"),
        (DeviceAction::SetLock(true), "", "Device locked.", "[Lock(true)]"),
        (DeviceAction::SetLock(false), "", "Device unlocked.", "[Lock(false)]"),
        (DeviceAction::SetMonitorMix(5), "", "Monitor mix → 5%", "[MonitorMix(5)]"),
        (DeviceAction::SetLimiter(false), "", "Limiter → OFF", "[Limiter(false)]"),
        (DeviceAction::SetCompressor(CompressorPreset::Heavy), "Heavy", "Compressor → Heavy", "[Compressor(Heavy)]"),
        (DeviceAction::SetHpf(HpfFrequency::Hz150), "150 Hz", "HPF → 150 Hz", "[Hpf(Hz150)]"),
        (DeviceAction::SetEqEnable(false), "", "EQ → Bypass", "[EqEnable(false)]"),
        (DeviceAction::SetEqBandEnable(4, true), "", "EQ Band 5 → ON", "[EqBandEnable(4, true)]"),
        (DeviceAction::SetEqBandGain(0, -5), "", "EQ Band 1 → -0.5 dB", "[EqBandGain(0, -5)]"),
        (DeviceAction::SetEqBandGain(1, 0), "", "EQ Band 2 → +0.0 dB", "[EqBandGain(1, 0)]"),
        (DeviceAction::SetMv6Denoiser(true), "", "Denoiser → ON", "[Mv6Denoiser(true)]"),
        (DeviceAction::SetMv6PopperStopper(false), "", "Popper Stopper → OFF", "[Mv6PopperStopper(false)]"),
        (DeviceAction::SetMv6MuteBtnDisable(true), "", "Mute Button → Disabled", "[Mv6MuteBtnDisable(true)]"),
        (DeviceAction::SetMv6Tone(-7), "", "Tone → 70% Dark", "[Mv6Tone(-7)]"),
        (DeviceAction::SetMv6Tone(10), "", "Tone → 100% Bright", "[Mv6Tone(10)]"),
        (DeviceAction::SetMv6Tone(0), "", "Tone → Natural", "[Mv6Tone(0)]"),
        (DeviceAction::SetMv6GainLock(true), "", "Gain locked.", "[Mv6GainLock(true)]"),
        (DeviceAction::SetMv6MonitorMix(100), "", "Monitor mix → 100%", "[Mv6MonitorMix(100)]"),
        (DeviceAction::SetMv7PlaybackMix(0), "", "Playback mix → 0%", "[Mv7PlaybackMix(0)]"),
        (DeviceAction::SetMv7ReverbOutput(true), "", "Reverb output → ON", "[Mv7ReverbOutput(true)]"),
        (DeviceAction::SetMv7ReverbMonitor(false), "", "Reverb monitoring → OFF", "[Mv7ReverbMonitor(false)]"),
        (DeviceAction::SetMv7ReverbPreset(ReverbType::Plate), "Plate", "Reverb type → Plate", "[Mv7ReverbType(Plate)]"),
        (DeviceAction::SetMv7ReverbIntensity(9), "", "Reverb intensity → 9%", "[Mv7ReverbIntensity(9)]"),
        (DeviceAction::SetMv7LedBehavior(LedBehavior::Solid), "Solid", "LED behavior → Solid", "[Mv7LedBehavior(Solid)]"),
        (DeviceAction::SetMv7LedBrightness(LedBrightness::Max), "Max", "LED brightness → Max", "[Mv7LedBrightness(Max)]"),
        (DeviceAction::SetMv7LedLiveTheme(LedLiveTheme::Fruity), "Fruity", "LED live theme → Fruity", "[Mv7LedLiveTheme(Fruity)]"),
        (DeviceAction::SetMv7LedSolidTheme(LedSolidTheme::Shure), "Shure", "LED solid theme → Shure", "[Mv7LedSolidTheme(Shure)]"),
        (DeviceAction::SetMv7LedPulsingTheme(LedPulsingTheme::Custom), "Custom", "LED pulsing theme → Custom", "[Mv7LedPulsingTheme(Custom)]"),
        (DeviceAction::SetMv7LedSolidRgb([0, 171, 255]), "", "LED solid color → #00ABFF", "[Mv7LedSolidColor([0, 171, 255])]"),
        (DeviceAction::SetMv7LedPulsingRgb([1, 2, 3]), "", "LED pulsing color → #010203", "[Mv7LedPulsingColor([1, 2, 3])]"),
        (DeviceAction::SetMv7LedLiveEdgeRgb([16, 32, 48]), "", "LED live edge → #102030", "[Mv7LedLiveEdge([16, 32, 48])]"),
        (DeviceAction::SetMv7LedLiveMiddleRgb([9, 10, 15]), "", "LED live middle → #090A0F", "[Mv7LedLiveMiddle([9, 10, 15])]"),
        (DeviceAction::SetMv7LedLiveInteriorRgb([254, 0, 1]), "", "LED live interior → #FE0001", "[Mv7LedLiveInterior([254, 0, 1])]"),
        (
            DeviceAction::FactoryReset,
            "",
            "Factory reset sent — device is restarting. Restart shurectl to reconnect.",
            "[FactoryReset]",
        ),
    ];
    for (action, word, text, commands) in cases {
        let (t, c) = told(action, word);
        assert_eq!(t, text);
        assert_eq!(c, commands);
    }
}

#[test]
fn shown_gains_match_single_precision() {
    for t in -80i16..=60 {
        let (text, _) = told(DeviceAction::SetEqBandGain(0, t), "");
        assert_eq!(text, format!("EQ Band 1 → {:+.1} dB", t as f32 / 10.0));
    }
}

#[test]
fn shown_values_read_back() {
    for t in -80i16..=60 {
        let text = format!("{:+.1}", t as f32 / 10.0);
        assert_eq!(shurectl::value::parse_db_tenths(&text).unwrap(), t);
    }
    assert_eq!(shurectl::value::parse_rgb("#00ABFF").unwrap(), [0, 171, 255]);
}

#[test]
fn flattening_clears_the_gains() {
    let (text, commands) = told(DeviceAction::FlattenEq, "");
    assert_eq!(text, "EQ flattened.");
    assert_eq!(
        commands,
        "[EqBandGain(0, 0), EqBandGain(1, 0), EqBandGain(2, 0), EqBandGain(3, 0), EqBandGain(4, 0)]"
    );
    let mut a = app(DeviceModel::Mvx2u);
    apply_action(&mut a, false, &DeviceAction::FlattenEq, "");
    for (k, band) in a.device_state.settings.eq_bands.iter().enumerate() {
        assert_eq!(band.gain_db, 0);
        assert_eq!(band.enabled, settings().eq_bands[k].enabled);
    }
}

#[test]
fn without_a_device_nothing_is_sent() {
    let mut a = app(DeviceModel::Mvx2u);
    a.presets[0] = Some(slot("A"));
    for action in [DeviceAction::SetGain(1), DeviceAction::LoadPreset(0), DeviceAction::FactoryReset] {
        assert!(matches!(apply_action(&mut a, false, &action, ""), Work::Done));
    }
    assert!(matches!(apply_action(&mut a, false, &DeviceAction::Refresh, ""), Work::Done));
    assert_eq!(a.status.text, "Demo mode — no device to refresh.");
}

#[test]
fn refreshing_takes_the_state_over() {
    let mut a = app(DeviceModel::Mvx2u);
    assert!(matches!(apply_action(&mut a, true, &DeviceAction::Refresh, ""), Work::Refresh));
    let mut fresh = state();
    fresh.serial_number = "SN2".to_string();
    fresh.settings.gain_db = 1;
    refreshed(&mut a, Ok(fresh));
    assert_eq!(a.device_state.serial_number, "SN2");
    assert_eq!(a.device_state.settings.gain_db, 1);
    assert_eq!(a.status.text, "State refreshed from device.");
    refreshed(&mut a, Err("timeout".to_string()));
    assert!(!a.status.ok);
    assert_eq!(a.status.text, "Device error: timeout");
    assert_eq!(a.device_state.serial_number, "SN2");
}

#[test]
fn presets_are_saved_loaded_renamed_and_deleted() {
    let mut a = app(DeviceModel::Mv6);
    // Save under the name of the slot.
    let work = apply_action(&mut a, true, &DeviceAction::SavePreset(1), "");
    match &work {
        Work::Save { index, slot } => {
            assert_eq!(*index, 1);
            assert_eq!(slot.name, "Preset 2");
            assert_eq!(shown(&slot.settings), shown(&settings()));
        }
        _ => panic!(),
    }
    assert!(a.presets[1].is_none());
    finish_action(&mut a, work, None);
    assert_eq!(a.status.text, "Saved to \"Preset 2\".");
    assert_eq!(a.presets[1].as_ref().unwrap().name, "Preset 2");

    // What was saved comes back, and the serial number stays.
    a.device_state.settings.gain_db = 0;
    a.device_state.settings.tone = 9;
    a.device_state.serial_number = "SN9".to_string();
    let work = apply_action(&mut a, true, &DeviceAction::LoadPreset(1), "");
    assert_eq!(a.status.text, "Loaded \"Preset 2\".");
    assert_eq!(shown(&a.device_state.settings), shown(&settings()));
    assert_eq!(a.device_state.serial_number, "SN9");
    match work {
        Work::Send { commands } => {
            assert_eq!(shown(&commands), shown(&apply_preset_to_device(&state(), DeviceModel::Mv6)))
        }
        _ => panic!(),
    }

    // Rename, and save again under the name it has.
    a.presets[1].as_mut().unwrap().name = "Studio".to_string();
    let work = apply_action(&mut a, true, &DeviceAction::PersistPresetName(1), "");
    assert!(matches!(&work, Work::Rename { index: 1, slot } if slot.name == "Studio"));
    finish_action(&mut a, work, None);
    assert_eq!(a.status.text, "Renamed to \"Studio\".");
    let work = apply_action(&mut a, true, &DeviceAction::SavePreset(1), "");
    assert!(matches!(&work, Work::Save { index: 1, slot } if slot.name == "Studio"));

    // Work that fails changes nothing but the status line.
    a.device_state.settings.gain_db = 3;
    finish_action(&mut a, work, Some("disk full".to_string()));
    assert!(!a.status.ok);
    assert_eq!(a.status.text, "Device error: disk full");
    assert_eq!(a.presets[1].as_ref().unwrap().settings.gain_db, 24);

    let work = apply_action(&mut a, true, &DeviceAction::DeletePreset(1), "");
    finish_action(&mut a, work, None);
    assert_eq!(a.status.text, "Deleted \"Studio\".");
    assert!(a.presets[1].is_none());
    let work = apply_action(&mut a, true, &DeviceAction::DeletePreset(1), "");
    finish_action(&mut a, work, None);
    assert_eq!(a.status.text, "Deleted \"preset\".");

    assert!(matches!(apply_action(&mut a, true, &DeviceAction::LoadPreset(1), ""), Work::Done));
    assert!(!a.status.ok);
    assert_eq!(a.status.text, "Preset slot 2 is empty.");
    assert!(matches!(apply_action(&mut a, true, &DeviceAction::PersistPresetName(1), ""), Work::Done));
}

#[test]
fn preset_commands_follow_the_model() {
    assert_eq!(
        shown(&apply_preset_to_device(&state(), DeviceModel::Mvx2u)),
        "[Mode(false), Gain(24), Mute(false), Hpf(Hz75), AutoPosition(Near), AutoTone(Natural), \
AutoGain(Normal), Phantom(true), MonitorMix(40), Limiter(true), Compressor(Medium), EqEnable(true), \
EqBandEnable(0, true), EqBandGain(0, 10), EqBandEnable(1, false), EqBandGain(1, -20), \
EqBandEnable(2, true), EqBandGain(2, 30), EqBandEnable(3, false), EqBandGain(3, -40), \
EqBandEnable(4, true), EqBandGain(4, 50)]"
    );
    assert_eq!(
        shown(&apply_preset_to_device(&state(), DeviceModel::Mvx2uGen2)),
        "[Mode(false), Gain(24), Mute(false), Hpf(Hz75), Phantom(true), Mv6MonitorMix(40), \
Limiter(true), Compressor(Medium), Mv6Denoiser(true), Mv6PopperStopper(false), Mv6Tone(-3), \
Mv6GainLock(true), EqBandGain(0, 10), EqBandGain(1, -20), EqBandGain(2, 30), EqBandGain(3, -40), \
EqBandGain(4, 50)]"
    );
    assert_eq!(
        shown(&apply_preset_to_device(&state(), DeviceModel::Mv6)),
        "[Mode(false), Gain(24), Mute(false), Hpf(Hz75), Mv6Denoiser(true), Mv6PopperStopper(false), \
Mv6MuteBtnDisable(false), Mv6Tone(-3), Mv6GainLock(true), Mv6MonitorMix(40)]"
    );
    assert_eq!(
        shown(&apply_preset_to_device(&state(), DeviceModel::Mv7Plus)),
        "[Mode(false), Gain(24), Mute(false), Hpf(Hz75), Mv6Denoiser(true), Mv6PopperStopper(false), \
Mv6MuteBtnDisable(false), Mv6Tone(-3), Mv6MonitorMix(40), Limiter(true), Compressor(Medium), \
Mv7PlaybackMix(70), Mv7ReverbOutput(true), Mv7ReverbMonitor(false), Mv7ReverbType(Hall), \
Mv7ReverbIntensity(55), Mv7LedBehavior(Live), Mv7LedBrightness(Med), Mv7LedLiveTheme(Space), \
Mv7LedSolidTheme(Custom), Mv7LedPulsingTheme(Shure), Mv7LedSolidColor([1, 2, 3]), \
Mv7LedPulsingColor([4, 5, 6]), Mv7LedLiveEdge([7, 8, 9]), Mv7LedLiveMiddle([10, 11, 12]), \
Mv7LedLiveInterior([13, 14, 15])]"
    );
}

#[test]
fn sending_stops_at_the_first_failure() {
    let commands = vec![DeviceCommand::Gain(1), DeviceCommand::Mute(true), DeviceCommand::Gain(2)];
    // The device is the list of what it was sent.
    let (seen, r) = send_all(Vec::new(), &commands, |mut log: Vec<String>, c: &DeviceCommand| {
        log.push(shown(c));
        let reply = if matches!(c, DeviceCommand::Mute(_)) {
            Err("lost".to_string())
        } else {
            Ok(())
        };
        (log, reply)
    });
    assert_eq!(r, Err("lost".to_string()));
    assert_eq!(seen, vec!["Gain(1)".to_string(), "Mute(true)".to_string()]);
    let (count, r) = send_all(0u32, &commands, |n: u32, _c: &DeviceCommand| {
        (n + 1, Ok::<(), String>(()))
    });
    assert_eq!(r, Ok(()));
    assert_eq!(count, 3);
    let (count, r) = send_all(7u32, &vec![], |n: u32, _c: &DeviceCommand| {
        (n + 1, Err::<(), String>("lost".to_string()))
    });
    assert_eq!(r, Ok(()));
    assert_eq!(count, 7);
}

#[test]
fn the_next_command_follows_a_success() {
    let commands = vec![DeviceCommand::Gain(1), DeviceCommand::Gain(2)];
    assert_eq!(next_command(&commands, 0, false), Some(0));
    assert_eq!(next_command(&commands, 1, false), Some(1));
    assert_eq!(next_command(&commands, 2, false), None);
    assert_eq!(next_command(&commands, 1, true), None);
}

#[test]
fn keys_are_awaited_until_the_tick_is_over() {
    assert_eq!(poll_timeout(100, 0), 100);
    assert_eq!(poll_timeout(100, 30), 70);
    assert_eq!(poll_timeout(100, 100), 0);
    assert_eq!(poll_timeout(100, 250), 0);
    assert!(!tick_is_over(100, 99));
    assert!(tick_is_over(100, 100));
}

#[test]
fn a_device_is_used_only_where_there_is_one() {
    let r: Result<(), String> = send_if_connected(&Some(7u8), |d: &u8| Err(format!("device {d}")));
    assert_eq!(r, Err("device 7".to_string()));
    let r: Result<(), String> = send_if_connected(&None, |d: &u8| Err(format!("device {d}")));
    assert_eq!(r, Ok(()));
}

#[test]
fn presets_are_named_after_their_slot() {
    assert_eq!(default_preset_name(1), "Preset 1");
    assert_eq!(default_preset_name(40), "Preset 40");
}

#[test]
fn devices_are_listed() {
    assert_eq!(
        list_devices(&vec![], true),
        vec![
            "No Shure MVX2U, MVX2U Gen 2, or MV6 devices found.",
            "Check that the device is plugged in and the udev rule is installed."
        ]
    );
    assert_eq!(
        list_devices(&vec![], false)[1],
        "Check that the device is plugged in and accessible."
    );
    let devices = vec![
        DeviceInfo {
            path: "/dev/hidraw0".to_string(),
            model: DeviceModel::Mvx2uGen2,
            serial: "A1".to_string(),
        },
        DeviceInfo {
            path: "/dev/hidraw1".to_string(),
            model: DeviceModel::Mv7Plus,
            serial: String::new(),
        },
    ];
    assert_eq!(
        list_devices(&devices, true),
        vec![
            "Found 2 Shure device(s):",
            "  /dev/hidraw0 | MVX2U Gen 2 | S/N: A1",
            "  /dev/hidraw1 | MV7+ | S/N: "
        ]
    );
}

#[test]
fn the_user_is_greeted() {
    let mut a = app(DeviceModel::Mv6);
    let mut first = state();
    first.settings.gain_db = 2;
    greet(&mut a, Some(Ok(first)));
    assert_eq!(a.status.text, "Connected to MV6 — state loaded.");
    assert_eq!(a.device_state.settings.gain_db, 2);
    greet(&mut a, Some(Err("no reply".to_string())));
    assert!(!a.status.ok);
    assert_eq!(a.status.text, "Connected but failed to read state: no reply");
    greet(&mut a, None);
    assert!(a.status.ok);
    assert_eq!(a.status.text, "Demo mode (MV6) — changes will not be sent to a device.");
    meter_unavailable(&mut a, "no input");
    assert!(!a.status.ok);
    assert_eq!(a.status.text, "Meter unavailable: no input");
}

#[test]
fn the_model_to_demonstrate_comes_first() {
    assert_eq!(choose_model(Some(DeviceModel::Mv6), Some(DeviceModel::Mv7Plus)), DeviceModel::Mv6);
    assert_eq!(choose_model(None, Some(DeviceModel::Mv7Plus)), DeviceModel::Mv7Plus);
    assert_eq!(choose_model(None, None), DeviceModel::Mvx2u);
}

#[test]
fn gains_are_limited_by_the_model() {
    assert_eq!(DeviceModel::Mvx2u.max_gain_db(), 60);
    assert_eq!(DeviceModel::Mvx2uGen2.max_gain_db(), 60);
    assert_eq!(DeviceModel::Mv6.max_gain_db(), 36);
    assert_eq!(DeviceModel::Mv7Plus.max_gain_db(), 36);
    assert_eq!(DeviceModel::Mvx2u.display_name(), "MVX2U");
}
