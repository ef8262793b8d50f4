//! Carrying out what the user asks for: the message that the interface shows
//! and the work that is left to do outside.

use vstd::prelude::*;

use crate::app;
use crate::app::{App, AppView, DeviceAction};
use crate::decibel;
use crate::error::{Fault, PRESET_COUNT};
use crate::number;
use crate::presets;
use crate::presets::{PresetSlot, SlotView, StateView};
use crate::protocol::{DeviceCommand, DeviceState, EqBand, InputMode, Settings};
use crate::single;
use crate::text;
use crate::value;

verus! {

/// What is left to do after an action has been applied.
pub enum Work {
    /// Nothing.
    Done,
    /// Read the state of the device, then go on with `refreshed`.
    Refresh,
    /// Send the commands in order.
    Send { commands: Vec<DeviceCommand> },
    /// Store the preset at this index.
    Save { index: usize, slot: PresetSlot },
    /// Store the preset at this index under its new name.
    Rename { index: usize, slot: PresetSlot },
    /// Delete the preset at this index.
    Delete { index: usize },
}

/// What `Work` says.
#[verifier::ext_equal]
pub enum WorkView {
    Done,
    Refresh,
    Send { commands: Seq<DeviceCommand> },
    Save { index: usize, slot: SlotView },
    Rename { index: usize, slot: SlotView },
    Delete { index: usize },
}

impl View for Work {
    type V = WorkView;

    open spec fn view(&self) -> WorkView {
        match *self {
            Work::Done => WorkView::Done,
            Work::Refresh => WorkView::Refresh,
            Work::Send { commands } => WorkView::Send { commands: commands@ },
            Work::Save { index, slot } => WorkView::Save { index, slot: slot@ },
            Work::Rename { index, slot } => WorkView::Rename { index, slot: slot@ },
            Work::Delete { index } => WorkView::Delete { index },
        }
    }
}

/// A tone in words.
pub open spec fn tone_label(tone: int) -> Seq<char> {
    if tone < 0 {
        text::decimal((-tone * 10) as nat) + "% Dark"@
    } else if tone > 0 {
        text::decimal((tone * 10) as nat) + "% Bright"@
    } else {
        "Natural"@
    }
}

/// Tenths as a decimal number with a sign.
pub open spec fn signed_tenths(t: int) -> Seq<char> {
    let size = if t < 0 {
        -t
    } else {
        t
    };
    (if t < 0 {
        "-"@
    } else {
        "+"@
    }) + text::decimal((size / 10) as nat) + "."@ + text::decimal((size % 10) as nat)
}

/// A color as six hexadecimal digits.
pub open spec fn hex_color(rgb: [u8; 3]) -> Seq<char> {
    text::hex_byte(rgb[0]) + text::hex_byte(rgb[1]) + text::hex_byte(rgb[2])
}

/// What the user is told of a change of a setting. `shown` is the new value, as
/// the interface shows it, where the value is a word.
pub open spec fn change_text(action: DeviceAction, shown: Seq<char>) -> Seq<char> {
    match action {
        DeviceAction::SetGain(n) => "Gain → "@ + text::decimal(n as nat) + " dB"@,
        DeviceAction::SetMode(_) => "Mode → "@ + shown,
        DeviceAction::SetAutoPosition(_) => "Mic Position → "@ + shown,
        DeviceAction::SetAutoTone(_) => "Tone → "@ + shown,
        DeviceAction::SetAutoGain(_) => "Auto Gain → "@ + shown,
        DeviceAction::SetMute(on) => if on {
            "Mute → ON"@
        } else {
            "Mute → OFF"@
        },
        DeviceAction::SetPhantom(on) => if on {
            "Phantom → 48V ON"@
        } else {
            "Phantom → OFF"@
        },
        DeviceAction::SetLock(on) => if on {
            "Device locked."@
        } else {
            "Device unlocked."@
        },
        DeviceAction::SetMonitorMix(n) => "Monitor mix → "@ + text::decimal(n as nat) + "%"@,
        DeviceAction::SetLimiter(on) => if on {
            "Limiter → ON"@
        } else {
            "Limiter → OFF"@
        },
        DeviceAction::SetCompressor(_) => "Compressor → "@ + shown,
        DeviceAction::SetHpf(_) => "HPF → "@ + shown,
        DeviceAction::SetEqEnable(on) => if on {
            "EQ → Enabled"@
        } else {
            "EQ → Bypass"@
        },
        DeviceAction::SetMv6Denoiser(on) => if on {
            "Denoiser → ON"@
        } else {
            "Denoiser → OFF"@
        },
        DeviceAction::SetMv6PopperStopper(on) => if on {
            "Popper Stopper → ON"@
        } else {
            "Popper Stopper → OFF"@
        },
        DeviceAction::SetMv6MuteBtnDisable(on) => if on {
            "Mute Button → Disabled"@
        } else {
            "Mute Button → Enabled"@
        },
        DeviceAction::SetMv6Tone(n) => "Tone → "@ + tone_label(n as int),
        DeviceAction::SetMv6GainLock(on) => if on {
            "Gain locked."@
        } else {
            "Gain unlocked."@
        },
        DeviceAction::SetMv6MonitorMix(n) => "Monitor mix → "@ + text::decimal(n as nat) + "%"@,
        DeviceAction::SetMv7PlaybackMix(n) => "Playback mix → "@ + text::decimal(n as nat) + "%"@,
        DeviceAction::SetMv7ReverbOutput(on) => if on {
            "Reverb output → ON"@
        } else {
            "Reverb output → OFF"@
        },
        DeviceAction::SetMv7ReverbMonitor(on) => if on {
            "Reverb monitoring → ON"@
        } else {
            "Reverb monitoring → OFF"@
        },
        DeviceAction::SetMv7ReverbPreset(_) => "Reverb type → "@ + shown,
        DeviceAction::SetMv7ReverbIntensity(n) => "Reverb intensity → "@ + text::decimal(n as nat)
            + "%"@,
        DeviceAction::SetMv7LedBehavior(_) => "LED behavior → "@ + shown,
        DeviceAction::SetMv7LedBrightness(_) => "LED brightness → "@ + shown,
        DeviceAction::SetMv7LedLiveTheme(_) => "LED live theme → "@ + shown,
        DeviceAction::SetMv7LedSolidTheme(_) => "LED solid theme → "@ + shown,
        DeviceAction::SetMv7LedPulsingTheme(_) => "LED pulsing theme → "@ + shown,
        DeviceAction::SetMv7LedSolidRgb(rgb) => "LED solid color → #"@ + hex_color(rgb),
        DeviceAction::SetMv7LedPulsingRgb(rgb) => "LED pulsing color → #"@ + hex_color(rgb),
        DeviceAction::SetMv7LedLiveEdgeRgb(rgb) => "LED live edge → #"@ + hex_color(rgb),
        DeviceAction::SetMv7LedLiveMiddleRgb(rgb) => "LED live middle → #"@ + hex_color(rgb),
        DeviceAction::SetMv7LedLiveInteriorRgb(rgb) => "LED live interior → #"@ + hex_color(rgb),
        DeviceAction::SetEqBandEnable(band, on) => "EQ Band "@ + text::decimal(
            (band + 1) as nat,
        ) + if on {
            " → ON"@
        } else {
            " → OFF"@
        },
        DeviceAction::SetEqBandGain(band, t) => "EQ Band "@ + text::decimal((band + 1) as nat)
            + " → "@ + signed_tenths(t as int) + " dB"@,
        DeviceAction::FlattenEq => "EQ flattened."@,
        DeviceAction::FactoryReset =>
            "Factory reset sent — device is restarting. Restart shurectl to reconnect."@,
        _ => Seq::empty(),
    }
}

/// The commands by which a change of a setting reaches the device.
pub open spec fn change_commands(action: DeviceAction) -> Seq<DeviceCommand> {
    match action {
        DeviceAction::SetGain(v) => seq![DeviceCommand::Gain(v)],
        DeviceAction::SetMode(m) => seq![DeviceCommand::Mode(m == InputMode::Auto)],
        DeviceAction::SetAutoPosition(v) => seq![DeviceCommand::AutoPosition(v)],
        DeviceAction::SetAutoTone(v) => seq![DeviceCommand::AutoTone(v)],
        DeviceAction::SetAutoGain(v) => seq![DeviceCommand::AutoGain(v)],
        DeviceAction::SetMute(v) => seq![DeviceCommand::Mute(v)],
        DeviceAction::SetPhantom(v) => seq![DeviceCommand::Phantom(v)],
        DeviceAction::SetLock(v) => seq![DeviceCommand::Lock(v)],
        DeviceAction::SetMonitorMix(v) => seq![DeviceCommand::MonitorMix(v)],
        DeviceAction::SetLimiter(v) => seq![DeviceCommand::Limiter(v)],
        DeviceAction::SetCompressor(v) => seq![DeviceCommand::Compressor(v)],
        DeviceAction::SetHpf(v) => seq![DeviceCommand::Hpf(v)],
        DeviceAction::SetEqEnable(v) => seq![DeviceCommand::EqEnable(v)],
        DeviceAction::SetMv6Denoiser(v) => seq![DeviceCommand::Mv6Denoiser(v)],
        DeviceAction::SetMv6PopperStopper(v) => seq![DeviceCommand::Mv6PopperStopper(v)],
        DeviceAction::SetMv6MuteBtnDisable(v) => seq![DeviceCommand::Mv6MuteBtnDisable(v)],
        DeviceAction::SetMv6Tone(v) => seq![DeviceCommand::Mv6Tone(v)],
        DeviceAction::SetMv6GainLock(v) => seq![DeviceCommand::Mv6GainLock(v)],
        DeviceAction::SetMv6MonitorMix(v) => seq![DeviceCommand::Mv6MonitorMix(v)],
        DeviceAction::SetMv7PlaybackMix(v) => seq![DeviceCommand::Mv7PlaybackMix(v)],
        DeviceAction::SetMv7ReverbOutput(v) => seq![DeviceCommand::Mv7ReverbOutput(v)],
        DeviceAction::SetMv7ReverbMonitor(v) => seq![DeviceCommand::Mv7ReverbMonitor(v)],
        DeviceAction::SetMv7ReverbPreset(v) => seq![DeviceCommand::Mv7ReverbType(v)],
        DeviceAction::SetMv7ReverbIntensity(v) => seq![DeviceCommand::Mv7ReverbIntensity(v)],
        DeviceAction::SetMv7LedBehavior(v) => seq![DeviceCommand::Mv7LedBehavior(v)],
        DeviceAction::SetMv7LedBrightness(v) => seq![DeviceCommand::Mv7LedBrightness(v)],
        DeviceAction::SetMv7LedLiveTheme(v) => seq![DeviceCommand::Mv7LedLiveTheme(v)],
        DeviceAction::SetMv7LedSolidTheme(v) => seq![DeviceCommand::Mv7LedSolidTheme(v)],
        DeviceAction::SetMv7LedPulsingTheme(v) => seq![DeviceCommand::Mv7LedPulsingTheme(v)],
        DeviceAction::SetMv7LedSolidRgb(v) => seq![DeviceCommand::Mv7LedSolidColor(v)],
        DeviceAction::SetMv7LedPulsingRgb(v) => seq![DeviceCommand::Mv7LedPulsingColor(v)],
        DeviceAction::SetMv7LedLiveEdgeRgb(v) => seq![DeviceCommand::Mv7LedLiveEdge(v)],
        DeviceAction::SetMv7LedLiveMiddleRgb(v) => seq![DeviceCommand::Mv7LedLiveMiddle(v)],
        DeviceAction::SetMv7LedLiveInteriorRgb(v) => seq![DeviceCommand::Mv7LedLiveInterior(v)],
        DeviceAction::SetEqBandEnable(band, on) => seq![DeviceCommand::EqBandEnable(band, on)],
        DeviceAction::SetEqBandGain(band, t) => seq![DeviceCommand::EqBandGain(band, t)],
        DeviceAction::FlattenEq => Seq::new(
            5,
            |k: int| DeviceCommand::EqBandGain(k as usize, 0),
        ),
        DeviceAction::FactoryReset => seq![DeviceCommand::FactoryReset],
        _ => Seq::empty(),
    }
}

/// The settings with every band of the equalizer at no gain.
pub open spec fn flattened(s: Settings) -> Settings {
    Settings {
        eq_bands: [
            EqBand { gain_db: 0, ..s.eq_bands[0] },
            EqBand { gain_db: 0, ..s.eq_bands[1] },
            EqBand { gain_db: 0, ..s.eq_bands[2] },
            EqBand { gain_db: 0, ..s.eq_bands[3] },
            EqBand { gain_db: 0, ..s.eq_bands[4] },
        ],
        ..s
    }
}

/// Commands for the device, or nothing to do where there is none.
pub open spec fn sending(connected: bool, commands: Seq<DeviceCommand>) -> WorkView {
    if connected {
        WorkView::Send { commands }
    } else {
        WorkView::Done
    }
}

/// The name that the preset at an index is saved under.
pub open spec fn name_to_save(app: AppView, i: int) -> Seq<char> {
    match app.presets[i] {
        Some(slot) => slot.name,
        None => presets::default_name(i + 1),
    }
}

/// An action: the state after it, and what is left to do.
pub open spec fn action_step(
    app: AppView,
    connected: bool,
    action: DeviceAction,
    shown: Seq<char>,
) -> (AppView, WorkView) {
    match action {
        DeviceAction::Refresh => if connected {
            (app, WorkView::Refresh)
        } else {
            (app.told("Demo mode — no device to refresh."@), WorkView::Done)
        },
        DeviceAction::FlattenEq => (
            AppView {
                device_state: StateView {
                    settings: flattened(app.device_state.settings),
                    ..app.device_state
                },
                ..app
            }.told(change_text(action, shown)),
            sending(connected, change_commands(action)),
        ),
        DeviceAction::SavePreset(i) => (
            app,
            WorkView::Save {
                index: i,
                slot: presets::snapshot(name_to_save(app, i as int), app.device_state),
            },
        ),
        DeviceAction::LoadPreset(i) => load_step(app, connected, i as int),
        DeviceAction::DeletePreset(i) => (app, WorkView::Delete { index: i }),
        DeviceAction::PersistPresetName(i) => match app.presets[i as int] {
            Some(slot) => (app, WorkView::Rename { index: i, slot }),
            None => (app, WorkView::Done),
        },
        _ => (
            app.told(change_text(action, shown)),
            sending(connected, change_commands(action)),
        ),
    }
}

fn joined(before: &str, after: &str) -> (both: String)
    ensures
        both@ == before@ + after@,
{
    let mut both = before.to_owned();
    both.append(after);
    both
}

fn numbered(before: &str, n: u8, after: &str) -> (whole: String)
    ensures
        whole@ == before@ + text::decimal(n as nat) + after@,
{
    let mut whole = before.to_owned();
    text::append_decimal(&mut whole, n as u64);
    whole.append(after);
    whole
}

fn quoted(before: &str, name: &str) -> (whole: String)
    ensures
        whole@ == before@ + name@ + "\"."@,
{
    let mut whole = before.to_owned();
    whole.append(name);
    whole.append("\".");
    whole
}

fn tone_text(tone: i8) -> (label: String)
    ensures
        label@ == tone_label(tone as int),
{
    let mut label = String::new();
    if tone < 0 {
        text::append_decimal(&mut label, (-(tone as i64) * 10) as u64);
        label.append("% Dark");
        proof {
            assert(label@ =~= tone_label(tone as int));
        }
        label
    } else if tone > 0 {
        text::append_decimal(&mut label, (tone as i64 * 10) as u64);
        label.append("% Bright");
        proof {
            assert(label@ =~= tone_label(tone as int));
        }
        label
    } else {
        "Natural".to_owned()
    }
}

fn tenths_text(t: i16) -> (shown: String)
    ensures
        shown@ == signed_tenths(t as int),
{
    let size: u64 = if t < 0 {
        (-(t as i64)) as u64
    } else {
        t as u64
    };
    let mut shown = if t < 0 {
        "-".to_owned()
    } else {
        "+".to_owned()
    };
    text::append_decimal(&mut shown, size / 10);
    shown.append(".");
    text::append_decimal(&mut shown, size % 10);
    shown
}

fn hex_text(rgb: [u8; 3]) -> (shown: String)
    ensures
        shown@ == hex_color(rgb),
{
    let mut shown = String::new();
    text::append_hex(&mut shown, rgb[0]);
    text::append_hex(&mut shown, rgb[1]);
    text::append_hex(&mut shown, rgb[2]);
    proof {
        assert(shown@ =~= hex_color(rgb));
    }
    shown
}

fn change_message(action: &DeviceAction, shown: &str) -> (message: String)
    requires
        app::action_wf(*action),
    ensures
        message@ == change_text(*action, shown@),
{
    match action {
        DeviceAction::SetGain(n) => numbered("Gain → ", *n, " dB"),
        DeviceAction::SetMode(_) => joined("Mode → ", shown),
        DeviceAction::SetAutoPosition(_) => joined("Mic Position → ", shown),
        DeviceAction::SetAutoTone(_) => joined("Tone → ", shown),
        DeviceAction::SetAutoGain(_) => joined("Auto Gain → ", shown),
        DeviceAction::SetMute(on) => if *on {
            "Mute → ON".to_owned()
        } else {
            "Mute → OFF".to_owned()
        },
        DeviceAction::SetPhantom(on) => if *on {
            "Phantom → 48V ON".to_owned()
        } else {
            "Phantom → OFF".to_owned()
        },
        DeviceAction::SetLock(on) => if *on {
            "Device locked.".to_owned()
        } else {
            "Device unlocked.".to_owned()
        },
        DeviceAction::SetMonitorMix(n) => numbered("Monitor mix → ", *n, "%"),
        DeviceAction::SetLimiter(on) => if *on {
            "Limiter → ON".to_owned()
        } else {
            "Limiter → OFF".to_owned()
        },
        DeviceAction::SetCompressor(_) => joined("Compressor → ", shown),
        DeviceAction::SetHpf(_) => joined("HPF → ", shown),
        DeviceAction::SetEqEnable(on) => if *on {
            "EQ → Enabled".to_owned()
        } else {
            "EQ → Bypass".to_owned()
        },
        DeviceAction::SetMv6Denoiser(on) => if *on {
            "Denoiser → ON".to_owned()
        } else {
            "Denoiser → OFF".to_owned()
        },
        DeviceAction::SetMv6PopperStopper(on) => if *on {
            "Popper Stopper → ON".to_owned()
        } else {
            "Popper Stopper → OFF".to_owned()
        },
        DeviceAction::SetMv6MuteBtnDisable(on) => if *on {
            "Mute Button → Disabled".to_owned()
        } else {
            "Mute Button → Enabled".to_owned()
        },
        DeviceAction::SetMv6Tone(n) => joined("Tone → ", tone_text(*n).as_str()),
        DeviceAction::SetMv6GainLock(on) => if *on {
            "Gain locked.".to_owned()
        } else {
            "Gain unlocked.".to_owned()
        },
        DeviceAction::SetMv6MonitorMix(n) => numbered("Monitor mix → ", *n, "%"),
        DeviceAction::SetMv7PlaybackMix(n) => numbered("Playback mix → ", *n, "%"),
        DeviceAction::SetMv7ReverbOutput(on) => if *on {
            "Reverb output → ON".to_owned()
        } else {
            "Reverb output → OFF".to_owned()
        },
        DeviceAction::SetMv7ReverbMonitor(on) => if *on {
            "Reverb monitoring → ON".to_owned()
        } else {
            "Reverb monitoring → OFF".to_owned()
        },
        DeviceAction::SetMv7ReverbPreset(_) => joined("Reverb type → ", shown),
        DeviceAction::SetMv7ReverbIntensity(n) => numbered("Reverb intensity → ", *n, "%"),
        DeviceAction::SetMv7LedBehavior(_) => joined("LED behavior → ", shown),
        DeviceAction::SetMv7LedBrightness(_) => joined("LED brightness → ", shown),
        DeviceAction::SetMv7LedLiveTheme(_) => joined("LED live theme → ", shown),
        DeviceAction::SetMv7LedSolidTheme(_) => joined("LED solid theme → ", shown),
        DeviceAction::SetMv7LedPulsingTheme(_) => joined("LED pulsing theme → ", shown),
        DeviceAction::SetMv7LedSolidRgb(rgb) => joined(
            "LED solid color → #",
            hex_text(*rgb).as_str(),
        ),
        DeviceAction::SetMv7LedPulsingRgb(rgb) => joined(
            "LED pulsing color → #",
            hex_text(*rgb).as_str(),
        ),
        DeviceAction::SetMv7LedLiveEdgeRgb(rgb) => joined(
            "LED live edge → #",
            hex_text(*rgb).as_str(),
        ),
        DeviceAction::SetMv7LedLiveMiddleRgb(rgb) => joined(
            "LED live middle → #",
            hex_text(*rgb).as_str(),
        ),
        DeviceAction::SetMv7LedLiveInteriorRgb(rgb) => joined(
            "LED live interior → #",
            hex_text(*rgb).as_str(),
        ),
        DeviceAction::SetEqBandEnable(band, on) => {
            let mut m = "EQ Band ".to_owned();
            text::append_decimal(&mut m, (*band + 1) as u64);
            if *on {
                m.append(" → ON");
            } else {
                m.append(" → OFF");
            }
            m
        },
        DeviceAction::SetEqBandGain(band, t) => {
            let mut m = "EQ Band ".to_owned();
            text::append_decimal(&mut m, (*band + 1) as u64);
            m.append(" → ");
            m.append(tenths_text(*t).as_str());
            m.append(" dB");
            m
        },
        DeviceAction::FlattenEq => "EQ flattened.".to_owned(),
        DeviceAction::FactoryReset =>
            "Factory reset sent — device is restarting. Restart shurectl to reconnect.".to_owned(),
        _ => String::new(),
    }
}

fn change_list(action: &DeviceAction) -> (commands: Vec<DeviceCommand>)
    ensures
        commands@ == change_commands(*action),
{
    match action {
        DeviceAction::SetGain(v) => vec![DeviceCommand::Gain(*v)],
        DeviceAction::SetMode(m) => vec![DeviceCommand::Mode(*m == InputMode::Auto)],
        DeviceAction::SetAutoPosition(v) => vec![DeviceCommand::AutoPosition(*v)],
        DeviceAction::SetAutoTone(v) => vec![DeviceCommand::AutoTone(*v)],
        DeviceAction::SetAutoGain(v) => vec![DeviceCommand::AutoGain(*v)],
        DeviceAction::SetMute(v) => vec![DeviceCommand::Mute(*v)],
        DeviceAction::SetPhantom(v) => vec![DeviceCommand::Phantom(*v)],
        DeviceAction::SetLock(v) => vec![DeviceCommand::Lock(*v)],
        DeviceAction::SetMonitorMix(v) => vec![DeviceCommand::MonitorMix(*v)],
        DeviceAction::SetLimiter(v) => vec![DeviceCommand::Limiter(*v)],
        DeviceAction::SetCompressor(v) => vec![DeviceCommand::Compressor(*v)],
        DeviceAction::SetHpf(v) => vec![DeviceCommand::Hpf(*v)],
        DeviceAction::SetEqEnable(v) => vec![DeviceCommand::EqEnable(*v)],
        DeviceAction::SetMv6Denoiser(v) => vec![DeviceCommand::Mv6Denoiser(*v)],
        DeviceAction::SetMv6PopperStopper(v) => vec![DeviceCommand::Mv6PopperStopper(*v)],
        DeviceAction::SetMv6MuteBtnDisable(v) => vec![DeviceCommand::Mv6MuteBtnDisable(*v)],
        DeviceAction::SetMv6Tone(v) => vec![DeviceCommand::Mv6Tone(*v)],
        DeviceAction::SetMv6GainLock(v) => vec![DeviceCommand::Mv6GainLock(*v)],
        DeviceAction::SetMv6MonitorMix(v) => vec![DeviceCommand::Mv6MonitorMix(*v)],
        DeviceAction::SetMv7PlaybackMix(v) => vec![DeviceCommand::Mv7PlaybackMix(*v)],
        DeviceAction::SetMv7ReverbOutput(v) => vec![DeviceCommand::Mv7ReverbOutput(*v)],
        DeviceAction::SetMv7ReverbMonitor(v) => vec![DeviceCommand::Mv7ReverbMonitor(*v)],
        DeviceAction::SetMv7ReverbPreset(v) => vec![DeviceCommand::Mv7ReverbType(*v)],
        DeviceAction::SetMv7ReverbIntensity(v) => vec![DeviceCommand::Mv7ReverbIntensity(*v)],
        DeviceAction::SetMv7LedBehavior(v) => vec![DeviceCommand::Mv7LedBehavior(*v)],
        DeviceAction::SetMv7LedBrightness(v) => vec![DeviceCommand::Mv7LedBrightness(*v)],
        DeviceAction::SetMv7LedLiveTheme(v) => vec![DeviceCommand::Mv7LedLiveTheme(*v)],
        DeviceAction::SetMv7LedSolidTheme(v) => vec![DeviceCommand::Mv7LedSolidTheme(*v)],
        DeviceAction::SetMv7LedPulsingTheme(v) => vec![DeviceCommand::Mv7LedPulsingTheme(*v)],
        DeviceAction::SetMv7LedSolidRgb(v) => vec![DeviceCommand::Mv7LedSolidColor(*v)],
        DeviceAction::SetMv7LedPulsingRgb(v) => vec![DeviceCommand::Mv7LedPulsingColor(*v)],
        DeviceAction::SetMv7LedLiveEdgeRgb(v) => vec![DeviceCommand::Mv7LedLiveEdge(*v)],
        DeviceAction::SetMv7LedLiveMiddleRgb(v) => vec![DeviceCommand::Mv7LedLiveMiddle(*v)],
        DeviceAction::SetMv7LedLiveInteriorRgb(v) => vec![DeviceCommand::Mv7LedLiveInterior(*v)],
        DeviceAction::SetEqBandEnable(band, on) => vec![DeviceCommand::EqBandEnable(*band, *on)],
        DeviceAction::SetEqBandGain(band, t) => vec![DeviceCommand::EqBandGain(*band, *t)],
        DeviceAction::FlattenEq => {
            let commands = vec![
                DeviceCommand::EqBandGain(0, 0),
                DeviceCommand::EqBandGain(1, 0),
                DeviceCommand::EqBandGain(2, 0),
                DeviceCommand::EqBandGain(3, 0),
                DeviceCommand::EqBandGain(4, 0),
            ];
            proof {
                assert(commands@ =~= change_commands(*action));
            }
            commands
        },
        DeviceAction::FactoryReset => vec![DeviceCommand::FactoryReset],
        _ => Vec::new(),
    }
}

fn flatten(settings: &mut Settings)
    ensures
        *final(settings) == flattened(*old(settings)),
{
    let b = settings.eq_bands;
    settings.eq_bands = [
        EqBand { gain_db: 0, ..b[0] },
        EqBand { gain_db: 0, ..b[1] },
        EqBand { gain_db: 0, ..b[2] },
        EqBand { gain_db: 0, ..b[3] },
        EqBand { gain_db: 0, ..b[4] },
    ];
    proof {
        assert(settings.eq_bands =~= flattened(*old(settings)).eq_bands);
    }
}

fn send_commands(connected: bool, commands: Vec<DeviceCommand>) -> (work: Work)
    ensures
        work@ == sending(connected, commands@),
{
    if connected {
        Work::Send { commands }
    } else {
        Work::Done
    }
}

fn apply_change(app: &mut App, connected: bool, action: &DeviceAction, shown: &str) -> (work: Work)
    requires
        app::action_wf(*action),
    ensures
        final(app)@ == old(app)@.told(change_text(*action, shown@)),
        work@ == sending(connected, change_commands(*action)),
{
    app.set_ok(change_message(action, shown));
    send_commands(connected, change_list(action))
}

/// Loading a preset.
pub open spec fn load_step(app: AppView, connected: bool, i: int) -> (AppView, WorkView) {
    match app.presets[i] {
        Some(slot) => {
            let state = presets::restored(slot, app.device_state);
            (
                AppView { device_state: state, ..app }.told("Loaded \""@ + slot.name + "\"."@),
                sending(connected, presets::preset_commands(state.settings, app.device_model)),
            )
        },
        None => (
            app.warned("Preset slot "@ + text::decimal((i + 1) as nat) + " is empty."@),
            WorkView::Done,
        ),
    }
}

fn load_preset(app: &mut App, connected: bool, i: usize) -> (work: Work)
    requires
        old(app)@.wf(),
        i < PRESET_COUNT,
    ensures
        (final(app)@, work@) == load_step(old(app)@, connected, i as int),
{
    match &app.presets[i] {
        Some(slot) => {
            let slot = slot.clone();
            slot.apply_to_device_state(&mut app.device_state);
            app.set_ok(quoted("Loaded \"", slot.name.as_str()));
            let commands = presets::apply_preset_to_device(&app.device_state, app.device_model);
            send_commands(connected, commands)
        },
        None => {
            let mut message = "Preset slot ".to_owned();
            text::append_decimal(&mut message, (i + 1) as u64);
            message.append(" is empty.");
            app.set_err(message);
            Work::Done
        },
    }
}

/// Applies an action to the state of the interface and says what is left to do.
/// `shown` is the new value, as the interface shows it, where the value is a
/// word.
pub fn apply_action(app: &mut App, connected: bool, action: &DeviceAction, shown: &str) -> (work:
    Work)
    requires
        old(app)@.wf(),
        app::action_wf(*action),
    ensures
        (final(app)@, work@) == action_step(
            old(app)@,
            connected,
            *action,
            shown@,
        ),
        work_wf(work@),
        final(app)@.wf(),
{
    match action {
        DeviceAction::Refresh => {
            if connected {
                return Work::Refresh;
            }
            app.set_ok("Demo mode — no device to refresh.".to_owned());
            Work::Done
        },
        DeviceAction::FlattenEq => {
            flatten(&mut app.device_state.settings);
            apply_change(app, connected, action, shown)
        },
        DeviceAction::SavePreset(i) => {
            let name = match &app.presets[*i] {
                Some(slot) => slot.name.clone(),
                None => presets::default_preset_name(*i + 1),
            };
            let slot = PresetSlot::from_device_state(name, &app.device_state);
            Work::Save { index: *i, slot }
        },
        DeviceAction::LoadPreset(i) => load_preset(app, connected, *i),
        DeviceAction::DeletePreset(i) => Work::Delete { index: *i },
        DeviceAction::PersistPresetName(i) => {
            match &app.presets[*i] {
                Some(slot) => Work::Rename { index: *i, slot: slot.clone() },
                None => Work::Done,
            }
        },
        _ => apply_change(app, connected, action, shown),
    }
}

/// The state once the work that was left has been done, or has failed with a
/// message.
pub open spec fn finish_step(app: AppView, work: WorkView, error: Option<Seq<char>>) -> AppView {
    match error {
        Some(e) => app.warned("Device error: "@ + e),
        None => match work {
            WorkView::Save { index, slot } => AppView {
                presets: app.presets.update(index as int, Some(slot)),
                ..app
            }.told("Saved to \""@ + slot.name + "\"."@),
            WorkView::Rename { index, slot } => app.told(
                "Renamed to \""@ + slot.name + "\"."@,
            ),
            WorkView::Delete { index } => AppView {
                presets: app.presets.update(index as int, None),
                ..app
            }.told(
                "Deleted \""@ + (match app.presets[index as int] {
                    Some(slot) => slot.name,
                    None => "preset"@,
                }) + "\"."@,
            ),
            _ => app,
        },
    }
}

/// Whether the work is on a preset that exists.
pub open spec fn work_wf(work: WorkView) -> bool {
    match work {
        WorkView::Save { index, .. } | WorkView::Rename { index, .. } | WorkView::Delete {
            index,
        } => index < PRESET_COUNT,
        _ => true,
    }
}

/// Takes note that the work which an action left has been done, or that it has
/// failed with a message.
pub fn finish_action(app: &mut App, work: Work, error: Option<String>)
    requires
        old(app)@.wf(),
        work_wf(work@),
    ensures
        final(app)@ == finish_step(
            old(app)@,
            work@,
            match error {
                Some(e) => Some(e@),
                None => None,
            },
        ),
        final(app)@.wf(),
{
    match error {
        Some(e) => {
            app.set_err(joined("Device error: ", e.as_str()));
            return ;
        },
        None => {},
    }
    match work {
        Work::Save { index, slot } => {
            app.set_ok(quoted("Saved to \"", slot.name.as_str()));
            app.presets[index] = Some(slot);
        },
        Work::Rename { index: _, slot } => {
            app.set_ok(quoted("Renamed to \"", slot.name.as_str()));
        },
        Work::Delete { index } => {
            let message = match &app.presets[index] {
                Some(slot) => quoted("Deleted \"", slot.name.as_str()),
                None => quoted("Deleted \"", "preset"),
            };
            app.set_ok(message);
            app.presets[index] = None;
        },
        _ => {},
    }
}

/// Takes over the state that was read from the device, or notes that reading
/// failed with a message.
pub fn refreshed(app: &mut App, reading: Result<DeviceState, String>)
    requires
        old(app)@.wf(),
    ensures
        final(app)@ == (match reading {
            Ok(state) => AppView { device_state: state@, ..old(app)@ }.told(
                "State refreshed from device."@,
            ),
            Err(e) => old(app)@.warned("Device error: "@ + e@),
        }),
        final(app)@.wf(),
{
    match reading {
        Ok(state) => {
            app.device_state = state;
            app.set_ok("State refreshed from device.".to_owned());
        },
        Err(e) => {
            app.set_err(joined("Device error: ", e.as_str()));
        },
    }
}

/// Hands the device to `f`, if there is one.
pub fn send_if_connected<D, E, F: FnOnce(&D) -> Result<(), E>>(device: &Option<D>, f: F) -> (r:
    Result<(), E>)
    requires
        device matches Some(d) ==> call_requires(f, (&d,)),
    ensures
        match *device {
            Some(d) => call_ensures(f, (&d,), r),
            None => r == Ok::<(), E>(()),
        },
{
    match device {
        Some(d) => f(d),
        None => Ok(()),
    }
}

/// A color that the interface shows can be given as a value.
pub proof fn shown_color_reads_back(rgb: [u8; 3])
    ensures
        value::color("#"@ + hex_color(rgb)) == Ok::<[u8; 3], Fault>(rgb),
{
    reveal_strlit("#");
    let digits = hex_color(rgb);
    let s = "#"@ + digits;
    assert(digits.len() == 6);
    assert(s[0] == '#');
    assert(s.last() == digits[5]);
    assert(text::trimmed(s) == s);
    assert(s.drop_first() =~= digits);
    assert(value::unhashed(s) == value::unhashed(digits));
    assert(forall|i: int| 0 <= i < 6 ==> value::is_hex(#[trigger] digits[i]));
    assert(value::hex_color(digits) =~= rgb);
}

/// A gain that the interface shows for a band can be given as a value, and comes
/// to the same tenths.
pub proof fn shown_gain_reads_back(t: int)
    requires
        -80 <= t <= 60,
    ensures
        value::db_tenths(signed_tenths(t)) == Ok::<i16, Fault>(t as i16),
{
    reveal_strlit("-");
    reveal_strlit("+");
    reveal_strlit(".");
    reveal_strlit("nan");
    reveal_strlit("inf");
    reveal_strlit("infinity");
    let size = if t < 0 {
        -t
    } else {
        t
    };
    let a = text::digit_char(size / 10);
    let b = text::digit_char(size % 10);
    let sign = if t < 0 {
        '-'
    } else {
        '+'
    };
    let s = signed_tenths(t);
    assert(s =~= seq![sign, a, '.', b]);
    assert(s.first() == sign && s.last() == b);
    assert(text::trimmed(s) == s);
    let body = seq![a, '.', b];
    assert(decibel::unsigned_part(s) =~= body);
    assert(text::lowered(body)[0] == a);
    assert("nan"@[0] != a && "inf"@[0] != a && "infinity"@[0] != a);
    assert(decibel::first_of(body, 'e', 'E') == 3) by {
        reveal_with_fuel(decibel::first_of, 4);
    }
    assert(decibel::mantissa(body) =~= body);
    assert(decibel::first_of(body, '.', '.') == 1) by {
        reveal_with_fuel(decibel::first_of, 3);
    }
    assert(decibel::fraction(body) =~= seq![b]);
    let digits = seq![a, b];
    assert(decibel::significand(body) =~= digits);
    assert(number::value_of(digits) == size) by {
        reveal_with_fuel(number::value_of, 3);
        assert(digits.drop_last() =~= seq![a]);
        assert(seq![a].drop_last() =~= seq![]);
    }
    let x = decibel::power_of_ten(size as nat, -1);
    assert(x.den == 10) by {
        vstd::arithmetic::power::lemma_pow1(10);
    }
    assert(decibel::magnitude(body) == Some(x));
    single::whole_tenths_are_exact(x, size);
}

/// Without a device nothing is sent or read.
pub proof fn nothing_is_sent_without_a_device(app: AppView, action: DeviceAction, shown: Seq<char>)
    ensures
        !(action_step(app, false, action, shown).1 is Send),
        !(action_step(app, false, action, shown).1 is Refresh),
{
}

/// What was saved to a slot comes back when the slot is loaded, whatever was
/// changed in between.
pub proof fn saved_preset_loads_back(
    app: AppView,
    i: usize,
    shown: Seq<char>,
    later: AppView,
    connected: bool,
)
    requires
        app.wf(),
        i < PRESET_COUNT,
        ({
            let (asked, work) = action_step(app, connected, DeviceAction::SavePreset(i), shown);
            later.presets == finish_step(asked, work, None).presets
        }),
    ensures
        ({
            let (loaded, work) = action_step(later, connected, DeviceAction::LoadPreset(i), shown);
            loaded.device_state.settings == app.device_state.settings && (connected ==> work
                == (WorkView::Send {
                commands: presets::preset_commands(
                    app.device_state.settings,
                    later.device_model,
                ),
            }))
        }),
{
}

/// A deleted preset cannot be loaded: the settings stay and nothing is sent.
pub proof fn deleted_preset_is_gone(
    app: AppView,
    i: usize,
    shown: Seq<char>,
    later: AppView,
    connected: bool,
)
    requires
        app.wf(),
        i < PRESET_COUNT,
        ({
            let (asked, work) = action_step(app, connected, DeviceAction::DeletePreset(i), shown);
            later.presets == finish_step(asked, work, None).presets
        }),
    ensures
        ({
            let (tried, work) = action_step(later, connected, DeviceAction::LoadPreset(i), shown);
            tried.device_state == later.device_state && !tried.status.ok && work == WorkView::Done
        }),
{
}

/// Work that fails changes nothing but the status line.
pub proof fn failure_changes_only_the_status(app: AppView, work: WorkView, e: Seq<char>)
    ensures
        finish_step(app, work, Some(e)) == (AppView {
            status: finish_step(app, work, Some(e)).status,
            ..app
        }),
        !finish_step(app, work, Some(e)).status.ok,
{
}

/// Saving, renaming or deleting a preset leaves every other preset as it is.
pub proof fn other_presets_stay(app: AppView, work: WorkView, error: Option<Seq<char>>, k: int)
    requires
        work_wf(work),
        app.wf(),
        0 <= k < PRESET_COUNT,
        match work {
            WorkView::Save { index, .. } | WorkView::Rename { index, .. } | WorkView::Delete {
                index,
            } => index != k,
            _ => true,
        },
    ensures
        finish_step(app, work, error).presets[k] == app.presets[k],
{
}

/// Flattening the equalizer sends the device the gains that the interface then
/// shows.
pub proof fn flatten_sends_what_is_shown(s: Settings)
    ensures
        change_commands(DeviceAction::FlattenEq) == presets::band_gain_commands(flattened(s)),
{
    assert(change_commands(DeviceAction::FlattenEq) =~= presets::band_gain_commands(flattened(s)));
}

/// Saving keeps what the interface shows, under the name that the slot has, or
/// one after the slot; nothing is kept until it has been stored.
pub proof fn saving_keeps_what_is_shown(app: AppView, connected: bool, i: usize, shown: Seq<char>)
    requires
        app.wf(),
        i < PRESET_COUNT,
    ensures
        ({
            let (asked, work) = action_step(app, connected, DeviceAction::SavePreset(i), shown);
            let kept = finish_step(asked, work, None).presets[i as int];
            &&& asked == app
            &&& kept matches Some(slot) && slot.settings == app.device_state.settings && slot.name
                == (match app.presets[i as int] {
                Some(previous) => previous.name,
                None => "Preset "@ + text::decimal((i + 1) as nat),
            })
        }),
{
}

/// Renaming stores the preset as it is shown, in its own slot, and changes no
/// preset.
pub proof fn renaming_stores_the_shown_preset(
    app: AppView,
    connected: bool,
    i: usize,
    shown: Seq<char>,
)
    requires
        app.wf(),
        i < PRESET_COUNT,
        app.presets[i as int] is Some,
    ensures
        ({
            let (asked, work) = action_step(
                app,
                connected,
                DeviceAction::PersistPresetName(i),
                shown,
            );
            asked == app && work == (WorkView::Rename { index: i, slot: app.presets[i as int]->0 })
                && finish_step(asked, work, None).presets == app.presets
        }),
{
}

/// An action never touches what keys are about: pages, focus, questions, help,
/// and whether to quit. It touches no preset either.
pub proof fn actions_leave_the_page(
    app: AppView,
    connected: bool,
    action: DeviceAction,
    shown: Seq<char>,
)
    ensures
        ({
            let a = action_step(app, connected, action, shown).0;
            &&& a.demo_mode == app.demo_mode
            &&& a.device_model == app.device_model
            &&& a.should_quit == app.should_quit
            &&& a.editing_preset_name == app.editing_preset_name
            &&& a.editing_preset_index == app.editing_preset_index
            &&& a.confirming_factory_reset == app.confirming_factory_reset
            &&& a.help_visible == app.help_visible
            &&& a.active_tab == app.active_tab
            &&& a.focus == app.focus
            &&& a.presets == app.presets
        }),
{
}

/// Nor does the work that follows; and it leaves what the device is set to.
pub proof fn work_leaves_the_page(app: AppView, work: WorkView, error: Option<Seq<char>>)
    ensures
        ({
            let b = finish_step(app, work, error);
            &&& b.demo_mode == app.demo_mode
            &&& b.device_model == app.device_model
            &&& b.should_quit == app.should_quit
            &&& b.editing_preset_name == app.editing_preset_name
            &&& b.editing_preset_index == app.editing_preset_index
            &&& b.confirming_factory_reset == app.confirming_factory_reset
            &&& b.help_visible == app.help_visible
            &&& b.active_tab == app.active_tab
            &&& b.focus == app.focus
            &&& b.device_state == app.device_state
        }),
{
}

/// An action changes the settings shown only where it loads a preset or flattens
/// the equalizer, and never the serial number.
pub proof fn few_actions_change_what_is_shown(
    app: AppView,
    connected: bool,
    action: DeviceAction,
    shown: Seq<char>,
)
    ensures
        ({
            let a = action_step(app, connected, action, shown).0;
            a.device_state.serial_number == app.device_state.serial_number && (a.device_state
                != app.device_state ==> action is LoadPreset || action is FlattenEq)
        }),
{
}

/// Work that is done is told as a success, and work that fails as an error with
/// its message.
pub proof fn failures_are_told(app: AppView, work: WorkView, e: Seq<char>)
    ensures
        finish_step(app, work, Some(e)).status.text == "Device error: "@ + e,
        !finish_step(app, work, Some(e)).status.ok,
        work is Save || work is Rename || work is Delete ==> finish_step(
            app,
            work,
            None,
        ).status.ok,
{
}

/// The message on a switch says what it was switched to.
pub proof fn switches_are_told(on: bool, band: usize, shown: Seq<char>)
    ensures
        change_text(DeviceAction::SetMute(on), shown) == "Mute → "@ + if on {
            "ON"@
        } else {
            "OFF"@
        },
        change_text(DeviceAction::SetPhantom(on), shown) == "Phantom → "@ + if on {
            "48V ON"@
        } else {
            "OFF"@
        },
        change_text(DeviceAction::SetLock(on), shown) == "Device "@ + if on {
            "locked."@
        } else {
            "unlocked."@
        },
        change_text(DeviceAction::SetLimiter(on), shown) == "Limiter → "@ + if on {
            "ON"@
        } else {
            "OFF"@
        },
        change_text(DeviceAction::SetEqEnable(on), shown) == "EQ → "@ + if on {
            "Enabled"@
        } else {
            "Bypass"@
        },
        change_text(DeviceAction::SetMv6Denoiser(on), shown) == "Denoiser → "@ + if on {
            "ON"@
        } else {
            "OFF"@
        },
        change_text(DeviceAction::SetMv6PopperStopper(on), shown) == "Popper Stopper → "@ + if on {
            "ON"@
        } else {
            "OFF"@
        },
        change_text(DeviceAction::SetMv6MuteBtnDisable(on), shown) == "Mute Button → "@ + if on {
            "Disabled"@
        } else {
            "Enabled"@
        },
        change_text(DeviceAction::SetMv6GainLock(on), shown) == "Gain "@ + if on {
            "locked."@
        } else {
            "unlocked."@
        },
        change_text(DeviceAction::SetMv7ReverbOutput(on), shown) == "Reverb output → "@ + if on {
            "ON"@
        } else {
            "OFF"@
        },
        change_text(DeviceAction::SetMv7ReverbMonitor(on), shown) == "Reverb monitoring → "@ + if on {
            "ON"@
        } else {
            "OFF"@
        },
        change_text(DeviceAction::SetEqBandEnable(band, on), shown) == "EQ Band "@ + text::decimal(
            (band + 1) as nat,
        ) + " → "@ + if on {
            "ON"@
        } else {
            "OFF"@
        },
{
    reveal_strlit(" → ");
    reveal_strlit(" → OFF");
    reveal_strlit(" → ON");
    reveal_strlit("48V ON");
    reveal_strlit("Bypass");
    reveal_strlit("Denoiser → ");
    reveal_strlit("Denoiser → OFF");
    reveal_strlit("Denoiser → ON");
    reveal_strlit("Device ");
    reveal_strlit("Device locked.");
    reveal_strlit("Device unlocked.");
    reveal_strlit("Disabled");
    reveal_strlit("EQ Band ");
    reveal_strlit("EQ → ");
    reveal_strlit("EQ → Bypass");
    reveal_strlit("EQ → Enabled");
    reveal_strlit("Enabled");
    reveal_strlit("Gain ");
    reveal_strlit("Gain locked.");
    reveal_strlit("Gain unlocked.");
    reveal_strlit("Limiter → ");
    reveal_strlit("Limiter → OFF");
    reveal_strlit("Limiter → ON");
    reveal_strlit("Mute Button → ");
    reveal_strlit("Mute Button → Disabled");
    reveal_strlit("Mute Button → Enabled");
    reveal_strlit("Mute → ");
    reveal_strlit("Mute → OFF");
    reveal_strlit("Mute → ON");
    reveal_strlit("OFF");
    reveal_strlit("ON");
    reveal_strlit("Phantom → ");
    reveal_strlit("Phantom → 48V ON");
    reveal_strlit("Phantom → OFF");
    reveal_strlit("Popper Stopper → ");
    reveal_strlit("Popper Stopper → OFF");
    reveal_strlit("Popper Stopper → ON");
    reveal_strlit("Reverb monitoring → ");
    reveal_strlit("Reverb monitoring → OFF");
    reveal_strlit("Reverb monitoring → ON");
    reveal_strlit("Reverb output → ");
    reveal_strlit("Reverb output → OFF");
    reveal_strlit("Reverb output → ON");
    reveal_strlit("locked.");
    reveal_strlit("unlocked.");
    assert("Mute → "@ + "ON"@ =~= "Mute → ON"@);
    assert("Mute → "@ + "OFF"@ =~= "Mute → OFF"@);
    assert("Phantom → "@ + "48V ON"@ =~= "Phantom → 48V ON"@);
    assert("Phantom → "@ + "OFF"@ =~= "Phantom → OFF"@);
    assert("Device "@ + "locked."@ =~= "Device locked."@);
    assert("Device "@ + "unlocked."@ =~= "Device unlocked."@);
    assert("Limiter → "@ + "ON"@ =~= "Limiter → ON"@);
    assert("Limiter → "@ + "OFF"@ =~= "Limiter → OFF"@);
    assert("EQ → "@ + "Enabled"@ =~= "EQ → Enabled"@);
    assert("EQ → "@ + "Bypass"@ =~= "EQ → Bypass"@);
    assert("Denoiser → "@ + "ON"@ =~= "Denoiser → ON"@);
    assert("Denoiser → "@ + "OFF"@ =~= "Denoiser → OFF"@);
    assert("Popper Stopper → "@ + "ON"@ =~= "Popper Stopper → ON"@);
    assert("Popper Stopper → "@ + "OFF"@ =~= "Popper Stopper → OFF"@);
    assert("Mute Button → "@ + "Disabled"@ =~= "Mute Button → Disabled"@);
    assert("Mute Button → "@ + "Enabled"@ =~= "Mute Button → Enabled"@);
    assert("Gain "@ + "locked."@ =~= "Gain locked."@);
    assert("Gain "@ + "unlocked."@ =~= "Gain unlocked."@);
    assert("Reverb output → "@ + "ON"@ =~= "Reverb output → ON"@);
    assert("Reverb output → "@ + "OFF"@ =~= "Reverb output → OFF"@);
    assert("Reverb monitoring → "@ + "ON"@ =~= "Reverb monitoring → ON"@);
    assert("Reverb monitoring → "@ + "OFF"@ =~= "Reverb monitoring → OFF"@);
    let head = "EQ Band "@ + text::decimal((band + 1) as nat);
    assert(head + " → "@ + "ON"@ =~= head + " → ON"@);
    assert(head + " → "@ + "OFF"@ =~= head + " → OFF"@);
}

/// The message on a number says the number, on a tone how far it goes, on a gain
/// of a band its tenths, and on a color its digits.
pub proof fn numbers_are_told(n: u8, tone: i8, band: usize, t: i16, rgb: [u8; 3], shown: Seq<char>)
    ensures
        change_text(DeviceAction::SetGain(n), shown)
            == "Gain → "@ + text::decimal(n as nat) + " dB"@,
        change_text(DeviceAction::SetMonitorMix(n), shown)
            == "Monitor mix → "@ + text::decimal(n as nat) + "%"@,
        change_text(DeviceAction::SetMv6MonitorMix(n), shown)
            == "Monitor mix → "@ + text::decimal(n as nat) + "%"@,
        change_text(DeviceAction::SetMv7PlaybackMix(n), shown)
            == "Playback mix → "@ + text::decimal(n as nat) + "%"@,
        change_text(DeviceAction::SetMv7ReverbIntensity(n), shown)
            == "Reverb intensity → "@ + text::decimal(n as nat) + "%"@,
        change_text(DeviceAction::SetMv6Tone(tone), shown) == "Tone → "@ + if tone < 0 {
            text::decimal((10 * -tone) as nat) + "% Dark"@
        } else if tone == 0 {
            "Natural"@
        } else {
            text::decimal((10 * tone) as nat) + "% Bright"@
        },
        change_text(DeviceAction::SetEqBandGain(band, t), shown) == "EQ Band "@ + text::decimal(
            (band + 1) as nat,
        ) + " → "@ + signed_tenths(t as int) + " dB"@,
        change_text(DeviceAction::SetMv7LedSolidRgb(rgb), shown)
            == "LED solid color → #"@ + hex_color(rgb),
        change_text(DeviceAction::SetMv7LedPulsingRgb(rgb), shown)
            == "LED pulsing color → #"@ + hex_color(rgb),
        change_text(DeviceAction::SetMv7LedLiveEdgeRgb(rgb), shown)
            == "LED live edge → #"@ + hex_color(rgb),
        change_text(DeviceAction::SetMv7LedLiveMiddleRgb(rgb), shown)
            == "LED live middle → #"@ + hex_color(rgb),
        change_text(DeviceAction::SetMv7LedLiveInteriorRgb(rgb), shown)
            == "LED live interior → #"@ + hex_color(rgb),
{
}

} // verus!
