//! What commands do to a device: that requests, presets and changes in the
//! interface bring a device to what was asked for.
//!
//! A device is taken as what each of its settings reads as.

use vstd::prelude::*;

use crate::actions;
use crate::app::{AppView, DeviceAction};
use crate::catalog;
use crate::catalog::{ModelGroup, Setting};
use crate::number;
use crate::presets;
use crate::presets::{SlotView, StateView};
use crate::protocol::{
    AutoGain, AutoTone, CompressorPreset, DeviceCommand, DeviceModel, HpfFrequency, InputMode,
    LedBehavior, LedBrightness, LedLiveTheme, LedPulsingTheme, LedSolidTheme, MicPosition,
    ReverbType, Settings,
};
use crate::settings;
use crate::text;
use crate::token;
use crate::token::Token;
use crate::value;

verus! {

/// Something that a device is set to. Bands are counted from zero.
pub enum Field {
    Named(Setting),
    BandGain(int),
    BandSwitch(int),
}

/// What a field reads as.
pub enum Meaning {
    Switch(bool),
    Number(int),
    Word(Seq<char>),
    Color([u8; 3]),
    /// Tenths of a decibel.
    Tenths(int),
}

/// Whether a field exists: there are five bands.
pub open spec fn exists_on_devices(f: Field) -> bool {
    match f {
        Field::Named(_) => true,
        Field::BandGain(band) | Field::BandSwitch(band) => 0 <= band < 5,
    }
}

/// How a value of `InputMode` reads.
pub open spec fn mode_word(v: InputMode) -> Seq<char> {
    match v {
        InputMode::Auto => "auto"@,
        InputMode::Manual => "manual"@,
    }
}

/// How a value of `MicPosition` reads.
pub open spec fn position_word(v: MicPosition) -> Seq<char> {
    match v {
        MicPosition::Near => "near"@,
        MicPosition::Far => "far"@,
    }
}

/// How a value of `AutoTone` reads.
pub open spec fn tone_word(v: AutoTone) -> Seq<char> {
    match v {
        AutoTone::Dark => "dark"@,
        AutoTone::Natural => "natural"@,
        AutoTone::Bright => "bright"@,
    }
}

/// How a value of `AutoGain` reads.
pub open spec fn auto_gain_word(v: AutoGain) -> Seq<char> {
    match v {
        AutoGain::Quiet => "quiet"@,
        AutoGain::Normal => "normal"@,
        AutoGain::Loud => "loud"@,
    }
}

/// How a value of `CompressorPreset` reads.
pub open spec fn compressor_word(v: CompressorPreset) -> Seq<char> {
    match v {
        CompressorPreset::Off => "off"@,
        CompressorPreset::Light => "light"@,
        CompressorPreset::Medium => "medium"@,
        CompressorPreset::Heavy => "heavy"@,
    }
}

/// How a value of `HpfFrequency` reads.
pub open spec fn filter_word(v: HpfFrequency) -> Seq<char> {
    match v {
        HpfFrequency::Off => "off"@,
        HpfFrequency::Hz75 => "hz75"@,
        HpfFrequency::Hz150 => "hz150"@,
    }
}

/// How a value of `ReverbType` reads.
pub open spec fn reverb_word(v: ReverbType) -> Seq<char> {
    match v {
        ReverbType::Plate => "plate"@,
        ReverbType::Hall => "hall"@,
        ReverbType::Studio => "studio"@,
    }
}

/// How a value of `LedBehavior` reads.
pub open spec fn behavior_word(v: LedBehavior) -> Seq<char> {
    match v {
        LedBehavior::Live => "live"@,
        LedBehavior::Pulsing => "pulsing"@,
        LedBehavior::Solid => "solid"@,
    }
}

/// How a value of `LedBrightness` reads.
pub open spec fn brightness_word(v: LedBrightness) -> Seq<char> {
    match v {
        LedBrightness::Low => "low"@,
        LedBrightness::Med => "med"@,
        LedBrightness::High => "high"@,
        LedBrightness::Max => "max"@,
    }
}

/// How a value of `LedLiveTheme` reads.
pub open spec fn live_theme_word(v: LedLiveTheme) -> Seq<char> {
    match v {
        LedLiveTheme::Default => "default"@,
        LedLiveTheme::Seaside => "seaside"@,
        LedLiveTheme::Space => "space"@,
        LedLiveTheme::Fruity => "fruity"@,
        LedLiveTheme::Custom => "custom"@,
    }
}

/// How a value of `LedSolidTheme` reads.
pub open spec fn solid_theme_word(v: LedSolidTheme) -> Seq<char> {
    match v {
        LedSolidTheme::Shure => "shure"@,
        LedSolidTheme::Custom => "custom"@,
    }
}

/// How a value of `LedPulsingTheme` reads.
pub open spec fn pulsing_theme_word(v: LedPulsingTheme) -> Seq<char> {
    match v {
        LedPulsingTheme::Shure => "shure"@,
        LedPulsingTheme::Custom => "custom"@,
    }
}

/// What a field reads as on a device with these settings; none for the panel
/// lock, which they do not hold.
pub open spec fn reading(s: Settings, f: Field) -> Option<Meaning> {
    match f {
        Field::Named(setting) => match setting {
            Setting::Gain => Some(Meaning::Number(s.gain_db as int)),
            Setting::Mode => Some(Meaning::Word(mode_word(s.mode))),
            Setting::Mute => Some(Meaning::Switch(s.muted)),
            Setting::Hpf => Some(Meaning::Word(filter_word(s.hpf))),
            Setting::MonitorMix => Some(Meaning::Number(s.monitor_mix as int)),
            Setting::Phantom => Some(Meaning::Switch(s.phantom_power)),
            Setting::Limiter => Some(Meaning::Switch(s.limiter_enabled)),
            Setting::Compressor => Some(Meaning::Word(compressor_word(s.compressor))),
            Setting::Eq => Some(Meaning::Switch(s.eq_enabled)),
            Setting::Lock => None,
            Setting::AutoPosition => Some(Meaning::Word(position_word(s.auto_position))),
            Setting::AutoTone => Some(Meaning::Word(tone_word(s.auto_tone))),
            Setting::AutoGain => Some(Meaning::Word(auto_gain_word(s.auto_gain))),
            Setting::Denoiser => Some(Meaning::Switch(s.denoiser_enabled)),
            Setting::PopperStopper => Some(Meaning::Switch(s.popper_stopper_enabled)),
            Setting::Tone => Some(Meaning::Number(s.tone as int)),
            Setting::GainLock => Some(Meaning::Switch(s.mv6_gain_locked)),
            Setting::MuteButtonDisable => Some(Meaning::Switch(s.mute_btn_disabled)),
            Setting::PlaybackMix => Some(Meaning::Number(s.playback_mix as int)),
            Setting::ReverbOutput => Some(Meaning::Switch(s.reverb_on_output)),
            Setting::ReverbMonitor => Some(Meaning::Switch(s.reverb_monitoring)),
            Setting::ReverbType => Some(Meaning::Word(reverb_word(s.reverb_type))),
            Setting::ReverbIntensity => Some(Meaning::Number(s.reverb_intensity as int)),
            Setting::LedBehavior => Some(Meaning::Word(behavior_word(s.led_behavior))),
            Setting::LedBrightness => Some(Meaning::Word(brightness_word(s.led_brightness))),
            Setting::LedLiveTheme => Some(Meaning::Word(live_theme_word(s.led_live_theme))),
            Setting::LedSolidTheme => Some(Meaning::Word(solid_theme_word(s.led_solid_theme))),
            Setting::LedPulsingTheme => Some(Meaning::Word(pulsing_theme_word(s.led_pulsing_theme))),
            Setting::LedSolidRgb => Some(Meaning::Color(s.led_solid_rgb)),
            Setting::LedPulsingRgb => Some(Meaning::Color(s.led_pulsing_rgb)),
            Setting::LedLiveEdgeRgb => Some(Meaning::Color(s.led_live_edge_rgb)),
            Setting::LedLiveMiddleRgb => Some(Meaning::Color(s.led_live_middle_rgb)),
            Setting::LedLiveInteriorRgb => Some(Meaning::Color(s.led_live_interior_rgb)),
        },
        Field::BandGain(band) => Some(Meaning::Tenths(s.eq_bands[band].gain_db as int)),
        Field::BandSwitch(band) => Some(Meaning::Switch(s.eq_bands[band].enabled)),
    }
}

/// The field that a command sets on a device of a model, and what to. The first
/// generation has a command of its own for the monitor mix. None for a factory
/// reset, which is about no field in particular.
pub open spec fn effect(model: DeviceModel, command: DeviceCommand) -> Option<(Field, Meaning)> {
    match command {
        DeviceCommand::Gain(v) => Some((Field::Named(Setting::Gain), Meaning::Number(v as int))),
        DeviceCommand::Mode(auto) => Some(
            (Field::Named(Setting::Mode), Meaning::Word(if auto { "auto"@ } else { "manual"@ })),
        ),
        DeviceCommand::Mute(v) => Some((Field::Named(Setting::Mute), Meaning::Switch(v))),
        DeviceCommand::Hpf(v) => Some((Field::Named(Setting::Hpf), Meaning::Word(filter_word(v)))),
        DeviceCommand::Phantom(v) => Some((Field::Named(Setting::Phantom), Meaning::Switch(v))),
        DeviceCommand::Limiter(v) => Some((Field::Named(Setting::Limiter), Meaning::Switch(v))),
        DeviceCommand::Compressor(v) => Some(
            (Field::Named(Setting::Compressor), Meaning::Word(compressor_word(v))),
        ),
        DeviceCommand::EqEnable(v) => Some((Field::Named(Setting::Eq), Meaning::Switch(v))),
        DeviceCommand::Lock(v) => Some((Field::Named(Setting::Lock), Meaning::Switch(v))),
        DeviceCommand::AutoPosition(v) => Some(
            (Field::Named(Setting::AutoPosition), Meaning::Word(position_word(v))),
        ),
        DeviceCommand::AutoTone(v) => Some(
            (Field::Named(Setting::AutoTone), Meaning::Word(tone_word(v))),
        ),
        DeviceCommand::AutoGain(v) => Some(
            (Field::Named(Setting::AutoGain), Meaning::Word(auto_gain_word(v))),
        ),
        DeviceCommand::Mv6Denoiser(v) => Some(
            (Field::Named(Setting::Denoiser), Meaning::Switch(v)),
        ),
        DeviceCommand::Mv6PopperStopper(v) => Some(
            (Field::Named(Setting::PopperStopper), Meaning::Switch(v)),
        ),
        DeviceCommand::Mv6Tone(v) => Some((Field::Named(Setting::Tone), Meaning::Number(v as int))),
        DeviceCommand::Mv6GainLock(v) => Some(
            (Field::Named(Setting::GainLock), Meaning::Switch(v)),
        ),
        DeviceCommand::Mv6MuteBtnDisable(v) => Some(
            (Field::Named(Setting::MuteButtonDisable), Meaning::Switch(v)),
        ),
        DeviceCommand::Mv7PlaybackMix(v) => Some(
            (Field::Named(Setting::PlaybackMix), Meaning::Number(v as int)),
        ),
        DeviceCommand::Mv7ReverbOutput(v) => Some(
            (Field::Named(Setting::ReverbOutput), Meaning::Switch(v)),
        ),
        DeviceCommand::Mv7ReverbMonitor(v) => Some(
            (Field::Named(Setting::ReverbMonitor), Meaning::Switch(v)),
        ),
        DeviceCommand::Mv7ReverbType(v) => Some(
            (Field::Named(Setting::ReverbType), Meaning::Word(reverb_word(v))),
        ),
        DeviceCommand::Mv7ReverbIntensity(v) => Some(
            (Field::Named(Setting::ReverbIntensity), Meaning::Number(v as int)),
        ),
        DeviceCommand::Mv7LedBehavior(v) => Some(
            (Field::Named(Setting::LedBehavior), Meaning::Word(behavior_word(v))),
        ),
        DeviceCommand::Mv7LedBrightness(v) => Some(
            (Field::Named(Setting::LedBrightness), Meaning::Word(brightness_word(v))),
        ),
        DeviceCommand::Mv7LedLiveTheme(v) => Some(
            (Field::Named(Setting::LedLiveTheme), Meaning::Word(live_theme_word(v))),
        ),
        DeviceCommand::Mv7LedSolidTheme(v) => Some(
            (Field::Named(Setting::LedSolidTheme), Meaning::Word(solid_theme_word(v))),
        ),
        DeviceCommand::Mv7LedPulsingTheme(v) => Some(
            (Field::Named(Setting::LedPulsingTheme), Meaning::Word(pulsing_theme_word(v))),
        ),
        DeviceCommand::Mv7LedSolidColor(v) => Some(
            (Field::Named(Setting::LedSolidRgb), Meaning::Color(v)),
        ),
        DeviceCommand::Mv7LedPulsingColor(v) => Some(
            (Field::Named(Setting::LedPulsingRgb), Meaning::Color(v)),
        ),
        DeviceCommand::Mv7LedLiveEdge(v) => Some(
            (Field::Named(Setting::LedLiveEdgeRgb), Meaning::Color(v)),
        ),
        DeviceCommand::Mv7LedLiveMiddle(v) => Some(
            (Field::Named(Setting::LedLiveMiddleRgb), Meaning::Color(v)),
        ),
        DeviceCommand::Mv7LedLiveInterior(v) => Some(
            (Field::Named(Setting::LedLiveInteriorRgb), Meaning::Color(v)),
        ),
        DeviceCommand::MonitorMix(v) => if model == DeviceModel::Mvx2u {
            Some((Field::Named(Setting::MonitorMix), Meaning::Number(v as int)))
        } else {
            None
        },
        DeviceCommand::Mv6MonitorMix(v) => if model == DeviceModel::Mvx2u {
            None
        } else {
            Some((Field::Named(Setting::MonitorMix), Meaning::Number(v as int)))
        },
        DeviceCommand::EqBandGain(band, t) => Some(
            (Field::BandGain(band as int), Meaning::Tenths(t as int)),
        ),
        DeviceCommand::EqBandEnable(band, on) => Some(
            (Field::BandSwitch(band as int), Meaning::Switch(on)),
        ),
        DeviceCommand::FactoryReset => None,
    }
}

/// A device of a model once it has carried out commands, in order.
pub open spec fn carried_out(
    model: DeviceModel,
    device: Map<Field, Meaning>,
    commands: Seq<DeviceCommand>,
) -> Map<Field, Meaning>
    decreases commands.len(),
{
    if commands.len() == 0 {
        device
    } else {
        let before = carried_out(model, device, commands.drop_last());
        match effect(model, commands.last()) {
            Some((f, v)) => before.insert(f, v),
            None => before,
        }
    }
}

/// The name of a field.
pub open spec fn name_of(f: Field) -> Seq<char> {
    match f {
        Field::Named(setting) => match setting {
            Setting::Gain => "gain"@,
            Setting::Mode => "mode"@,
            Setting::Mute => "mute"@,
            Setting::Hpf => "hpf"@,
            Setting::MonitorMix => "monitor-mix"@,
            Setting::Phantom => "phantom"@,
            Setting::Limiter => "limiter"@,
            Setting::Compressor => "compressor"@,
            Setting::Eq => "eq"@,
            Setting::Lock => "lock"@,
            Setting::AutoPosition => "auto-position"@,
            Setting::AutoTone => "auto-tone"@,
            Setting::AutoGain => "auto-gain"@,
            Setting::Denoiser => "denoiser"@,
            Setting::PopperStopper => "popper-stopper"@,
            Setting::Tone => "tone"@,
            Setting::GainLock => "gain-lock"@,
            Setting::MuteButtonDisable => "mute-button-disable"@,
            Setting::PlaybackMix => "playback-mix"@,
            Setting::ReverbOutput => "reverb-output"@,
            Setting::ReverbMonitor => "reverb-monitor"@,
            Setting::ReverbType => "reverb-type"@,
            Setting::ReverbIntensity => "reverb-intensity"@,
            Setting::LedBehavior => "led-behavior"@,
            Setting::LedBrightness => "led-brightness"@,
            Setting::LedLiveTheme => "led-live-theme"@,
            Setting::LedSolidTheme => "led-solid-theme"@,
            Setting::LedPulsingTheme => "led-pulsing-theme"@,
            Setting::LedSolidRgb => "led-solid-rgb"@,
            Setting::LedPulsingRgb => "led-pulsing-rgb"@,
            Setting::LedLiveEdgeRgb => "led-live-edge-rgb"@,
            Setting::LedLiveMiddleRgb => "led-live-middle-rgb"@,
            Setting::LedLiveInteriorRgb => "led-live-interior-rgb"@,
        },
        Field::BandGain(band) => "eq"@ + text::decimal((band + 1) as nat),
        Field::BandSwitch(band) => "eq"@ + text::decimal((band + 1) as nat) + "-enable"@,
    }
}

/// Whether a model has a field.
pub open spec fn has(model: DeviceModel, f: Field) -> bool {
    match f {
        Field::Named(setting) => match setting {
            Setting::Gain | Setting::Mode | Setting::Mute | Setting::Hpf | Setting::MonitorMix => true,
            Setting::Phantom => model == DeviceModel::Mvx2u || model == DeviceModel::Mvx2uGen2,
            Setting::Limiter | Setting::Compressor => model == DeviceModel::Mvx2u || model
                == DeviceModel::Mvx2uGen2 || model == DeviceModel::Mv7Plus,
            Setting::Eq | Setting::Lock | Setting::AutoPosition | Setting::AutoTone
            | Setting::AutoGain => model == DeviceModel::Mvx2u,
            Setting::Denoiser | Setting::PopperStopper | Setting::Tone => model
                == DeviceModel::Mvx2uGen2 || model == DeviceModel::Mv6 || model
                == DeviceModel::Mv7Plus,
            Setting::GainLock => model == DeviceModel::Mvx2uGen2 || model == DeviceModel::Mv6,
            Setting::MuteButtonDisable => model == DeviceModel::Mv6 || model
                == DeviceModel::Mv7Plus,
            _ => model == DeviceModel::Mv7Plus,
        },
        Field::BandGain(_) => model == DeviceModel::Mvx2u || model == DeviceModel::Mvx2uGen2,
        Field::BandSwitch(_) => model == DeviceModel::Mvx2u,
    }
}

/// What a field can be set to.
pub enum Range {
    Switch,
    Number { lo: int, hi: int },
    Words(Seq<Seq<char>>),
    Color,
    /// A gain of an equalizer band.
    Gain,
}

/// What a field of a model can be set to.
pub open spec fn range(model: DeviceModel, f: Field) -> Range {
    match f {
        Field::Named(setting) => match setting {
            Setting::Gain => Range::Number {
                lo: 0,
                hi: if model == DeviceModel::Mvx2u || model == DeviceModel::Mvx2uGen2 {
                    60
                } else {
                    36
                },
            },
            Setting::Tone => Range::Number { lo: -10, hi: 10 },
            Setting::Mode => Range::Words(seq!["auto"@, "manual"@]),
            Setting::Mute => Range::Switch,
            Setting::Hpf => Range::Words(seq!["off"@, "hz75"@, "hz150"@]),
            Setting::MonitorMix => Range::Number { lo: 0, hi: 100 },
            Setting::Phantom => Range::Switch,
            Setting::Limiter => Range::Switch,
            Setting::Compressor => Range::Words(seq!["off"@, "light"@, "medium"@, "heavy"@]),
            Setting::Eq => Range::Switch,
            Setting::Lock => Range::Switch,
            Setting::AutoPosition => Range::Words(seq!["near"@, "far"@]),
            Setting::AutoTone => Range::Words(seq!["dark"@, "natural"@, "bright"@]),
            Setting::AutoGain => Range::Words(seq!["quiet"@, "normal"@, "loud"@]),
            Setting::Denoiser => Range::Switch,
            Setting::PopperStopper => Range::Switch,
            Setting::GainLock => Range::Switch,
            Setting::MuteButtonDisable => Range::Switch,
            Setting::PlaybackMix => Range::Number { lo: 0, hi: 100 },
            Setting::ReverbOutput => Range::Switch,
            Setting::ReverbMonitor => Range::Switch,
            Setting::ReverbType => Range::Words(seq!["plate"@, "hall"@, "studio"@]),
            Setting::ReverbIntensity => Range::Number { lo: 0, hi: 100 },
            Setting::LedBehavior => Range::Words(seq!["live"@, "pulsing"@, "solid"@]),
            Setting::LedBrightness => Range::Words(seq!["low"@, "med"@, "high"@, "max"@]),
            Setting::LedLiveTheme => Range::Words(seq!["default"@, "seaside"@, "space"@, "fruity"@, "custom"@]),
            Setting::LedSolidTheme => Range::Words(seq!["shure"@, "custom"@]),
            Setting::LedPulsingTheme => Range::Words(seq!["shure"@, "custom"@]),
            Setting::LedSolidRgb => Range::Color,
            Setting::LedPulsingRgb => Range::Color,
            Setting::LedLiveEdgeRgb => Range::Color,
            Setting::LedLiveMiddleRgb => Range::Color,
            Setting::LedLiveInteriorRgb => Range::Color,
        },
        Field::BandGain(_) => Range::Gain,
        Field::BandSwitch(_) => Range::Switch,
    }
}

/// What a text means for a field with a range; none where it means nothing that
/// the field can be set to.
pub open spec fn meant(range: Range, s: Seq<char>) -> Option<Meaning> {
    let word = text::lowered(text::trimmed(s));
    match range {
        Range::Switch => if seq!["on"@, "true"@, "1"@, "yes"@, "enabled"@].contains(word) {
            Some(Meaning::Switch(true))
        } else if seq!["off"@, "false"@, "0"@, "no"@, "disabled"@].contains(word) {
            Some(Meaning::Switch(false))
        } else {
            None
        },
        Range::Number { lo, hi } => match if lo < 0 {
            number::signed(text::trimmed(s))
        } else {
            match number::unsigned(text::trimmed(s)) {
                Some(n) => Some(n as int),
                None => None,
            }
        } {
            Some(n) if lo <= n <= hi => Some(Meaning::Number(n)),
            _ => None,
        },
        Range::Words(list) => if list.contains(word) {
            Some(Meaning::Word(word))
        } else {
            None
        },
        Range::Color => match value::color(s) {
            Ok(rgb) => Some(Meaning::Color(rgb)),
            Err(_) => None,
        },
        Range::Gain => match value::db_tenths(s) {
            Ok(t) => Some(Meaning::Tenths(t as int)),
            Err(_) => None,
        },
    }
}

proof fn lemma_name(f: Field)
    requires
        exists_on_devices(f),
    ensures
        match f {
            Field::Named(setting) => name_of(f) == setting.spelled(),
            Field::BandGain(band) => name_of(f) == catalog::band_name(band + 1, false),
            Field::BandSwitch(band) => name_of(f) == catalog::band_name(band + 1, true),
        },
{
}

/// Which models have which field: those of the table, and no others.
pub proof fn support_is_as_listed(model: DeviceModel, f: Field)
    requires
        exists_on_devices(f),
    ensures
        catalog::support(model, name_of(f)) is Ok <==> has(model, f),
{
    lemma_name(f);
    match f {
        Field::Named(setting) => {
            catalog::setting_support(model, setting);
            catalog::group_members(setting.group(), model);
        },
        Field::BandGain(band) => {
            catalog::band_support(model, band + 1, false);
            catalog::group_members(ModelGroup::Equalizing, model);
        },
        Field::BandSwitch(band) => {
            catalog::band_support(model, band + 1, true);
            catalog::group_members(ModelGroup::Gen1, model);
        },
    }
}

proof fn lemma_switch(s: Seq<char>)
    ensures
        match meant(Range::Switch, s) {
            Some(v) => value::on_off(s) matches Ok(b) && v == Meaning::Switch(b),
            None => value::on_off(s) is Err,
        },
{
    let word = text::lowered(text::trimmed(s));
    let on = seq!["on"@, "true"@, "1"@, "yes"@, "enabled"@];
    let off = seq!["off"@, "false"@, "0"@, "no"@, "disabled"@];
    assert(on.contains(on[0]) && on.contains(on[1]) && on.contains(on[2]) && on.contains(on[3])
        && on.contains(on[4]));
    assert(off.contains(off[0]) && off.contains(off[1]) && off.contains(off[2]) && off.contains(
        off[3],
    ) && off.contains(off[4]));
}

proof fn lemma_mode_word(s: Seq<char>)
    ensures
        match meant(Range::Words(seq!["auto"@, "manual"@]), s) {
            Some(v) => value::token::<InputMode>(s) matches Ok(t)
                && v == Meaning::Word(mode_word(t)),
            None => value::token::<InputMode>(s) is Err,
        },
{
    let word = text::lowered(text::trimmed(s));
    <InputMode as Token>::listed(word);
    <InputMode as Token>::named_is_spelled(word);
    assert(token::words(<InputMode as Token>::kind()) =~= seq!["auto"@, "manual"@]);
}

proof fn lemma_position_word(s: Seq<char>)
    ensures
        match meant(Range::Words(seq!["near"@, "far"@]), s) {
            Some(v) => value::token::<MicPosition>(s) matches Ok(t)
                && v == Meaning::Word(position_word(t)),
            None => value::token::<MicPosition>(s) is Err,
        },
{
    let word = text::lowered(text::trimmed(s));
    <MicPosition as Token>::listed(word);
    <MicPosition as Token>::named_is_spelled(word);
    assert(token::words(<MicPosition as Token>::kind()) =~= seq!["near"@, "far"@]);
}

proof fn lemma_tone_word(s: Seq<char>)
    ensures
        match meant(Range::Words(seq!["dark"@, "natural"@, "bright"@]), s) {
            Some(v) => value::token::<AutoTone>(s) matches Ok(t)
                && v == Meaning::Word(tone_word(t)),
            None => value::token::<AutoTone>(s) is Err,
        },
{
    let word = text::lowered(text::trimmed(s));
    <AutoTone as Token>::listed(word);
    <AutoTone as Token>::named_is_spelled(word);
    assert(token::words(<AutoTone as Token>::kind()) =~= seq!["dark"@, "natural"@, "bright"@]);
}

proof fn lemma_auto_gain_word(s: Seq<char>)
    ensures
        match meant(Range::Words(seq!["quiet"@, "normal"@, "loud"@]), s) {
            Some(v) => value::token::<AutoGain>(s) matches Ok(t)
                && v == Meaning::Word(auto_gain_word(t)),
            None => value::token::<AutoGain>(s) is Err,
        },
{
    let word = text::lowered(text::trimmed(s));
    <AutoGain as Token>::listed(word);
    <AutoGain as Token>::named_is_spelled(word);
    assert(token::words(<AutoGain as Token>::kind()) =~= seq!["quiet"@, "normal"@, "loud"@]);
}

proof fn lemma_compressor_word(s: Seq<char>)
    ensures
        match meant(Range::Words(seq!["off"@, "light"@, "medium"@, "heavy"@]), s) {
            Some(v) => value::token::<CompressorPreset>(s) matches Ok(t)
                && v == Meaning::Word(compressor_word(t)),
            None => value::token::<CompressorPreset>(s) is Err,
        },
{
    let word = text::lowered(text::trimmed(s));
    <CompressorPreset as Token>::listed(word);
    <CompressorPreset as Token>::named_is_spelled(word);
    assert(token::words(<CompressorPreset as Token>::kind())
        =~= seq!["off"@, "light"@, "medium"@, "heavy"@]);
}

proof fn lemma_filter_word(s: Seq<char>)
    ensures
        match meant(Range::Words(seq!["off"@, "hz75"@, "hz150"@]), s) {
            Some(v) => value::token::<HpfFrequency>(s) matches Ok(t)
                && v == Meaning::Word(filter_word(t)),
            None => value::token::<HpfFrequency>(s) is Err,
        },
{
    let word = text::lowered(text::trimmed(s));
    <HpfFrequency as Token>::listed(word);
    <HpfFrequency as Token>::named_is_spelled(word);
    assert(token::words(<HpfFrequency as Token>::kind()) =~= seq!["off"@, "hz75"@, "hz150"@]);
}

proof fn lemma_reverb_word(s: Seq<char>)
    ensures
        match meant(Range::Words(seq!["plate"@, "hall"@, "studio"@]), s) {
            Some(v) => value::token::<ReverbType>(s) matches Ok(t)
                && v == Meaning::Word(reverb_word(t)),
            None => value::token::<ReverbType>(s) is Err,
        },
{
    let word = text::lowered(text::trimmed(s));
    <ReverbType as Token>::listed(word);
    <ReverbType as Token>::named_is_spelled(word);
    assert(token::words(<ReverbType as Token>::kind()) =~= seq!["plate"@, "hall"@, "studio"@]);
}

proof fn lemma_behavior_word(s: Seq<char>)
    ensures
        match meant(Range::Words(seq!["live"@, "pulsing"@, "solid"@]), s) {
            Some(v) => value::token::<LedBehavior>(s) matches Ok(t)
                && v == Meaning::Word(behavior_word(t)),
            None => value::token::<LedBehavior>(s) is Err,
        },
{
    let word = text::lowered(text::trimmed(s));
    <LedBehavior as Token>::listed(word);
    <LedBehavior as Token>::named_is_spelled(word);
    assert(token::words(<LedBehavior as Token>::kind()) =~= seq!["live"@, "pulsing"@, "solid"@]);
}

proof fn lemma_brightness_word(s: Seq<char>)
    ensures
        match meant(Range::Words(seq!["low"@, "med"@, "high"@, "max"@]), s) {
            Some(v) => value::token::<LedBrightness>(s) matches Ok(t)
                && v == Meaning::Word(brightness_word(t)),
            None => value::token::<LedBrightness>(s) is Err,
        },
{
    let word = text::lowered(text::trimmed(s));
    <LedBrightness as Token>::listed(word);
    <LedBrightness as Token>::named_is_spelled(word);
    assert(token::words(<LedBrightness as Token>::kind())
        =~= seq!["low"@, "med"@, "high"@, "max"@]);
}

proof fn lemma_live_theme_word(s: Seq<char>)
    ensures
        match meant(Range::Words(seq!["default"@, "seaside"@, "space"@, "fruity"@, "custom"@]), s) {
            Some(v) => value::token::<LedLiveTheme>(s) matches Ok(t)
                && v == Meaning::Word(live_theme_word(t)),
            None => value::token::<LedLiveTheme>(s) is Err,
        },
{
    let word = text::lowered(text::trimmed(s));
    <LedLiveTheme as Token>::listed(word);
    <LedLiveTheme as Token>::named_is_spelled(word);
    assert(token::words(<LedLiveTheme as Token>::kind())
        =~= seq!["default"@, "seaside"@, "space"@, "fruity"@, "custom"@]);
}

proof fn lemma_solid_theme_word(s: Seq<char>)
    ensures
        match meant(Range::Words(seq!["shure"@, "custom"@]), s) {
            Some(v) => value::token::<LedSolidTheme>(s) matches Ok(t)
                && v == Meaning::Word(solid_theme_word(t)),
            None => value::token::<LedSolidTheme>(s) is Err,
        },
{
    let word = text::lowered(text::trimmed(s));
    <LedSolidTheme as Token>::listed(word);
    <LedSolidTheme as Token>::named_is_spelled(word);
    assert(token::words(<LedSolidTheme as Token>::kind()) =~= seq!["shure"@, "custom"@]);
}

proof fn lemma_pulsing_theme_word(s: Seq<char>)
    ensures
        match meant(Range::Words(seq!["shure"@, "custom"@]), s) {
            Some(v) => value::token::<LedPulsingTheme>(s) matches Ok(t)
                && v == Meaning::Word(pulsing_theme_word(t)),
            None => value::token::<LedPulsingTheme>(s) is Err,
        },
{
    let word = text::lowered(text::trimmed(s));
    <LedPulsingTheme as Token>::listed(word);
    <LedPulsingTheme as Token>::named_is_spelled(word);
    assert(token::words(<LedPulsingTheme as Token>::kind()) =~= seq!["shure"@, "custom"@]);
}

proof fn lemma_one(model: DeviceModel, device: Map<Field, Meaning>, command: DeviceCommand)
    ensures
        carried_out(model, device, seq![command]) == (match effect(model, command) {
            Some((f, v)) => device.insert(f, v),
            None => device,
        }),
{
    reveal_with_fuel(carried_out, 2);
    assert(seq![command].drop_last() =~= Seq::empty());
}

proof fn lemma_named_request(model: DeviceModel, setting: Setting, s: Seq<char>)
    ensures
        match meant(range(model, Field::Named(setting)), s) {
            Some(v) => settings::setting_command(model, setting, s) matches Ok(c) && effect(model, c)
                == Some((Field::Named(setting), v)),
            None => settings::setting_command(model, setting, s) is Err,
        },
{
    lemma_switch(s);
    match setting {
        Setting::Mode => {
            lemma_mode_word(s);
        },
        Setting::Hpf => {
            lemma_filter_word(s);
        },
        Setting::Compressor => {
            lemma_compressor_word(s);
        },
        Setting::AutoPosition => {
            lemma_position_word(s);
        },
        Setting::AutoTone => {
            lemma_tone_word(s);
        },
        Setting::AutoGain => {
            lemma_auto_gain_word(s);
        },
        Setting::ReverbType => {
            lemma_reverb_word(s);
        },
        Setting::LedBehavior => {
            lemma_behavior_word(s);
        },
        Setting::LedBrightness => {
            lemma_brightness_word(s);
        },
        Setting::LedLiveTheme => {
            lemma_live_theme_word(s);
        },
        Setting::LedSolidTheme => {
            lemma_solid_theme_word(s);
        },
        Setting::LedPulsingTheme => {
            lemma_pulsing_theme_word(s);
        },
        _ => {},
    }
}

/// A request sets the field that it names to what its text means, where the
/// model has the field and the text means something that it can be set to. No
/// other field changes. Every other request is refused.
pub proof fn request_sets_what_it_names(
    model: DeviceModel,
    name: Seq<char>,
    s: Seq<char>,
    device: Map<Field, Meaning>,
    f: Field,
)
    requires
        exists_on_devices(f),
        value::normalized(name) == name_of(f),
    ensures
        match meant(range(model, f), s) {
            Some(v) if has(model, f) => settings::requested(model, name, s) matches Ok(c)
                && carried_out(model, device, seq![c]) == device.insert(f, v),
            _ => settings::requested(model, name, s) is Err,
        },
{
    let key = value::normalized(name);
    support_is_as_listed(model, f);
    lemma_name(f);
    match f {
        Field::Named(setting) => {
            catalog::setting_is_found(setting);
            lemma_named_request(model, setting, s);
        },
        Field::BandGain(band) => {
            catalog::band_is_found(band + 1, false);
            lemma_band_is_no_setting(band + 1, false);
        },
        Field::BandSwitch(band) => {
            catalog::band_is_found(band + 1, true);
            lemma_band_is_no_setting(band + 1, true);
            lemma_switch(s);
        },
    }
    if let Ok(c) = settings::requested(model, name, s) {
        lemma_one(model, device, c);
    }
}

proof fn lemma_band_is_no_setting(band: int, is_enable: bool)
    requires
        1 <= band <= 5,
    ensures
        catalog::setting_named(catalog::band_name(band, is_enable)) is None,
{
    let key = catalog::band_name(band, is_enable);
    if let Some(setting) = catalog::setting_named(key) {
        catalog::found_is_spelled(key);
        catalog::band_names_differ(setting, band, is_enable);
    }
}

/// Nothing but a field can be set.
pub proof fn only_fields_are_set(model: DeviceModel, name: Seq<char>, s: Seq<char>) -> (f: Field)
    requires
        settings::requested(model, name, s) is Ok,
    ensures
        exists_on_devices(f),
        name_of(f) == value::normalized(name),
{
    let key = value::normalized(name);
    catalog::supported_key(model, key);
    match catalog::setting_named(key) {
        Some(setting) => {
            lemma_name(Field::Named(setting));
            Field::Named(setting)
        },
        None => {
            let (band, is_enable) = catalog::band_of(key)->0;
            if is_enable {
                Field::BandSwitch(band as int)
            } else {
                Field::BandGain(band as int)
            }
        },
    }
}

/// The field that the command at an index sets when a preset is loaded.
spec fn field_at(model: DeviceModel, i: int) -> Field {
    match model {
        DeviceModel::Mvx2u =>
            if i == 0 {
                Field::Named(Setting::Mode)
            } else if i == 1 {
                Field::Named(Setting::Gain)
            } else if i == 2 {
                Field::Named(Setting::Mute)
            } else if i == 3 {
                Field::Named(Setting::Hpf)
            } else if i == 4 {
                Field::Named(Setting::AutoPosition)
            } else if i == 5 {
                Field::Named(Setting::AutoTone)
            } else if i == 6 {
                Field::Named(Setting::AutoGain)
            } else if i == 7 {
                Field::Named(Setting::Phantom)
            } else if i == 8 {
                Field::Named(Setting::MonitorMix)
            } else if i == 9 {
                Field::Named(Setting::Limiter)
            } else if i == 10 {
                Field::Named(Setting::Compressor)
            } else if i == 11 {
                Field::Named(Setting::Eq)
            } else if i % 2 == 0 {
                Field::BandSwitch((i - 12) / 2)
            } else {
                Field::BandGain((i - 12) / 2)
            },
        DeviceModel::Mvx2uGen2 =>
            if i == 0 {
                Field::Named(Setting::Mode)
            } else if i == 1 {
                Field::Named(Setting::Gain)
            } else if i == 2 {
                Field::Named(Setting::Mute)
            } else if i == 3 {
                Field::Named(Setting::Hpf)
            } else if i == 4 {
                Field::Named(Setting::Phantom)
            } else if i == 5 {
                Field::Named(Setting::MonitorMix)
            } else if i == 6 {
                Field::Named(Setting::Limiter)
            } else if i == 7 {
                Field::Named(Setting::Compressor)
            } else if i == 8 {
                Field::Named(Setting::Denoiser)
            } else if i == 9 {
                Field::Named(Setting::PopperStopper)
            } else if i == 10 {
                Field::Named(Setting::Tone)
            } else if i == 11 {
                Field::Named(Setting::GainLock)
            } else {
                Field::BandGain(i - 12)
            },
        DeviceModel::Mv6 =>
            if i == 0 {
                Field::Named(Setting::Mode)
            } else if i == 1 {
                Field::Named(Setting::Gain)
            } else if i == 2 {
                Field::Named(Setting::Mute)
            } else if i == 3 {
                Field::Named(Setting::Hpf)
            } else if i == 4 {
                Field::Named(Setting::Denoiser)
            } else if i == 5 {
                Field::Named(Setting::PopperStopper)
            } else if i == 6 {
                Field::Named(Setting::MuteButtonDisable)
            } else if i == 7 {
                Field::Named(Setting::Tone)
            } else if i == 8 {
                Field::Named(Setting::GainLock)
            } else {
            Field::Named(Setting::MonitorMix)
            },
        DeviceModel::Mv7Plus =>
            if i == 0 {
                Field::Named(Setting::Mode)
            } else if i == 1 {
                Field::Named(Setting::Gain)
            } else if i == 2 {
                Field::Named(Setting::Mute)
            } else if i == 3 {
                Field::Named(Setting::Hpf)
            } else if i == 4 {
                Field::Named(Setting::Denoiser)
            } else if i == 5 {
                Field::Named(Setting::PopperStopper)
            } else if i == 6 {
                Field::Named(Setting::MuteButtonDisable)
            } else if i == 7 {
                Field::Named(Setting::Tone)
            } else if i == 8 {
                Field::Named(Setting::MonitorMix)
            } else if i == 9 {
                Field::Named(Setting::Limiter)
            } else if i == 10 {
                Field::Named(Setting::Compressor)
            } else if i == 11 {
                Field::Named(Setting::PlaybackMix)
            } else if i == 12 {
                Field::Named(Setting::ReverbOutput)
            } else if i == 13 {
                Field::Named(Setting::ReverbMonitor)
            } else if i == 14 {
                Field::Named(Setting::ReverbType)
            } else if i == 15 {
                Field::Named(Setting::ReverbIntensity)
            } else if i == 16 {
                Field::Named(Setting::LedBehavior)
            } else if i == 17 {
                Field::Named(Setting::LedBrightness)
            } else if i == 18 {
                Field::Named(Setting::LedLiveTheme)
            } else if i == 19 {
                Field::Named(Setting::LedSolidTheme)
            } else if i == 20 {
                Field::Named(Setting::LedPulsingTheme)
            } else if i == 21 {
                Field::Named(Setting::LedSolidRgb)
            } else if i == 22 {
                Field::Named(Setting::LedPulsingRgb)
            } else if i == 23 {
                Field::Named(Setting::LedLiveEdgeRgb)
            } else if i == 24 {
                Field::Named(Setting::LedLiveMiddleRgb)
            } else {
            Field::Named(Setting::LedLiveInteriorRgb)
            },
    }
}

/// Where a field is set when a preset is loaded; -1 where it is not.
spec fn position(model: DeviceModel, f: Field) -> int {
    match model {
        DeviceModel::Mvx2u => match f {
            Field::Named(setting) => match setting {
                Setting::Mode => 0,
                Setting::Gain => 1,
                Setting::Mute => 2,
                Setting::Hpf => 3,
                Setting::AutoPosition => 4,
                Setting::AutoTone => 5,
                Setting::AutoGain => 6,
                Setting::Phantom => 7,
                Setting::MonitorMix => 8,
                Setting::Limiter => 9,
                Setting::Compressor => 10,
                Setting::Eq => 11,
                _ => -1,
            },
            Field::BandSwitch(band) => 12 + 2 * band,
            Field::BandGain(band) => 13 + 2 * band,
        },
        DeviceModel::Mvx2uGen2 => match f {
            Field::Named(setting) => match setting {
                Setting::Mode => 0,
                Setting::Gain => 1,
                Setting::Mute => 2,
                Setting::Hpf => 3,
                Setting::Phantom => 4,
                Setting::MonitorMix => 5,
                Setting::Limiter => 6,
                Setting::Compressor => 7,
                Setting::Denoiser => 8,
                Setting::PopperStopper => 9,
                Setting::Tone => 10,
                Setting::GainLock => 11,
                _ => -1,
            },
            Field::BandGain(band) => 12 + band,
            _ => -1,
        },
        DeviceModel::Mv6 => match f {
            Field::Named(setting) => match setting {
                Setting::Mode => 0,
                Setting::Gain => 1,
                Setting::Mute => 2,
                Setting::Hpf => 3,
                Setting::Denoiser => 4,
                Setting::PopperStopper => 5,
                Setting::MuteButtonDisable => 6,
                Setting::Tone => 7,
                Setting::GainLock => 8,
                Setting::MonitorMix => 9,
                _ => -1,
            },
            _ => -1,
        },
        DeviceModel::Mv7Plus => match f {
            Field::Named(setting) => match setting {
                Setting::Mode => 0,
                Setting::Gain => 1,
                Setting::Mute => 2,
                Setting::Hpf => 3,
                Setting::Denoiser => 4,
                Setting::PopperStopper => 5,
                Setting::MuteButtonDisable => 6,
                Setting::Tone => 7,
                Setting::MonitorMix => 8,
                Setting::Limiter => 9,
                Setting::Compressor => 10,
                Setting::PlaybackMix => 11,
                Setting::ReverbOutput => 12,
                Setting::ReverbMonitor => 13,
                Setting::ReverbType => 14,
                Setting::ReverbIntensity => 15,
                Setting::LedBehavior => 16,
                Setting::LedBrightness => 17,
                Setting::LedLiveTheme => 18,
                Setting::LedSolidTheme => 19,
                Setting::LedPulsingTheme => 20,
                Setting::LedSolidRgb => 21,
                Setting::LedPulsingRgb => 22,
                Setting::LedLiveEdgeRgb => 23,
                Setting::LedLiveMiddleRgb => 24,
                Setting::LedLiveInteriorRgb => 25,
                _ => -1,
            },
            _ => -1,
        },
    }
}

proof fn lemma_position(model: DeviceModel, f: Field)
    requires
        exists_on_devices(f),
    ensures
        position(model, f) >= 0 <==> has(model, f) && f != Field::Named(Setting::Lock),
        position(model, f) >= 0 ==> field_at(model, position(model, f)) == f,
{
}

/// Whether the command at an index sets the field for that index to what the
/// preset holds.
#[verifier::opaque]
spec fn sends_field(s: Settings, model: DeviceModel, i: int) -> bool {
    let f = field_at(model, i);
    exists_on_devices(f) && position(model, f) == i && effect(
        model,
        presets::preset_commands(s, model)[i],
    ) == Some((f, reading(s, f)->0))
}

proof fn lemma_sent_mvx2u_1(s: Settings)
    ensures
        sends_field(s, DeviceModel::Mvx2u, 0),
        sends_field(s, DeviceModel::Mvx2u, 1),
        sends_field(s, DeviceModel::Mvx2u, 2),
        sends_field(s, DeviceModel::Mvx2u, 3),
{
    reveal(sends_field);
    let all = presets::preset_commands(s, DeviceModel::Mvx2u);
    assert(all[0] == DeviceCommand::Mode(s.mode == InputMode::Auto));
    assert(all[1] == DeviceCommand::Gain(s.gain_db));
    assert(all[2] == DeviceCommand::Mute(s.muted));
    assert(all[3] == DeviceCommand::Hpf(s.hpf));
}

proof fn lemma_sent_mvx2u_2(s: Settings)
    ensures
        sends_field(s, DeviceModel::Mvx2u, 4),
        sends_field(s, DeviceModel::Mvx2u, 5),
        sends_field(s, DeviceModel::Mvx2u, 6),
        sends_field(s, DeviceModel::Mvx2u, 7),
{
    reveal(sends_field);
    let all = presets::preset_commands(s, DeviceModel::Mvx2u);
    assert(all[4] == DeviceCommand::AutoPosition(s.auto_position));
    assert(all[5] == DeviceCommand::AutoTone(s.auto_tone));
    assert(all[6] == DeviceCommand::AutoGain(s.auto_gain));
    assert(all[7] == DeviceCommand::Phantom(s.phantom_power));
}

proof fn lemma_sent_mvx2u_3(s: Settings)
    ensures
        sends_field(s, DeviceModel::Mvx2u, 8),
        sends_field(s, DeviceModel::Mvx2u, 9),
        sends_field(s, DeviceModel::Mvx2u, 10),
        sends_field(s, DeviceModel::Mvx2u, 11),
{
    reveal(sends_field);
    let all = presets::preset_commands(s, DeviceModel::Mvx2u);
    assert(all[8] == DeviceCommand::MonitorMix(s.monitor_mix));
    assert(all[9] == DeviceCommand::Limiter(s.limiter_enabled));
    assert(all[10] == DeviceCommand::Compressor(s.compressor));
    assert(all[11] == DeviceCommand::EqEnable(s.eq_enabled));
}

proof fn lemma_sent_mvx2u(s: Settings, i: int)
    requires
        0 <= i < presets::preset_commands(s, DeviceModel::Mvx2u).len(),
    ensures
        sends_field(s, DeviceModel::Mvx2u, i),
{
    lemma_length(s, DeviceModel::Mvx2u);
    lemma_sent_mvx2u_1(s);
    lemma_sent_mvx2u_2(s);
    lemma_sent_mvx2u_3(s);
    if i >= 12 {
        reveal(sends_field);
        assert(presets::preset_commands(s, DeviceModel::Mvx2u)[i] == presets::band_commands(s)[i - 12]);
    }
}

proof fn lemma_sent_mvx2ugen2_1(s: Settings)
    ensures
        sends_field(s, DeviceModel::Mvx2uGen2, 0),
        sends_field(s, DeviceModel::Mvx2uGen2, 1),
        sends_field(s, DeviceModel::Mvx2uGen2, 2),
        sends_field(s, DeviceModel::Mvx2uGen2, 3),
{
    reveal(sends_field);
    let all = presets::preset_commands(s, DeviceModel::Mvx2uGen2);
    assert(all[0] == DeviceCommand::Mode(s.mode == InputMode::Auto));
    assert(all[1] == DeviceCommand::Gain(s.gain_db));
    assert(all[2] == DeviceCommand::Mute(s.muted));
    assert(all[3] == DeviceCommand::Hpf(s.hpf));
}

proof fn lemma_sent_mvx2ugen2_2(s: Settings)
    ensures
        sends_field(s, DeviceModel::Mvx2uGen2, 4),
        sends_field(s, DeviceModel::Mvx2uGen2, 5),
        sends_field(s, DeviceModel::Mvx2uGen2, 6),
        sends_field(s, DeviceModel::Mvx2uGen2, 7),
{
    reveal(sends_field);
    let all = presets::preset_commands(s, DeviceModel::Mvx2uGen2);
    assert(all[4] == DeviceCommand::Phantom(s.phantom_power));
    assert(all[5] == DeviceCommand::Mv6MonitorMix(s.monitor_mix));
    assert(all[6] == DeviceCommand::Limiter(s.limiter_enabled));
    assert(all[7] == DeviceCommand::Compressor(s.compressor));
}

proof fn lemma_sent_mvx2ugen2_3(s: Settings)
    ensures
        sends_field(s, DeviceModel::Mvx2uGen2, 8),
        sends_field(s, DeviceModel::Mvx2uGen2, 9),
        sends_field(s, DeviceModel::Mvx2uGen2, 10),
        sends_field(s, DeviceModel::Mvx2uGen2, 11),
{
    reveal(sends_field);
    let all = presets::preset_commands(s, DeviceModel::Mvx2uGen2);
    assert(all[8] == DeviceCommand::Mv6Denoiser(s.denoiser_enabled));
    assert(all[9] == DeviceCommand::Mv6PopperStopper(s.popper_stopper_enabled));
    assert(all[10] == DeviceCommand::Mv6Tone(s.tone));
    assert(all[11] == DeviceCommand::Mv6GainLock(s.mv6_gain_locked));
}

proof fn lemma_sent_mvx2ugen2(s: Settings, i: int)
    requires
        0 <= i < presets::preset_commands(s, DeviceModel::Mvx2uGen2).len(),
    ensures
        sends_field(s, DeviceModel::Mvx2uGen2, i),
{
    lemma_length(s, DeviceModel::Mvx2uGen2);
    lemma_sent_mvx2ugen2_1(s);
    lemma_sent_mvx2ugen2_2(s);
    lemma_sent_mvx2ugen2_3(s);
    if i >= 12 {
        reveal(sends_field);
        assert(presets::preset_commands(s, DeviceModel::Mvx2uGen2)[i]
            == presets::band_gain_commands(s)[i - 12]);
    }
}

proof fn lemma_sent_mv6_1(s: Settings)
    ensures
        sends_field(s, DeviceModel::Mv6, 0),
        sends_field(s, DeviceModel::Mv6, 1),
        sends_field(s, DeviceModel::Mv6, 2),
        sends_field(s, DeviceModel::Mv6, 3),
{
    reveal(sends_field);
    let all = presets::preset_commands(s, DeviceModel::Mv6);
    assert(all[0] == DeviceCommand::Mode(s.mode == InputMode::Auto));
    assert(all[1] == DeviceCommand::Gain(s.gain_db));
    assert(all[2] == DeviceCommand::Mute(s.muted));
    assert(all[3] == DeviceCommand::Hpf(s.hpf));
}

proof fn lemma_sent_mv6_2(s: Settings)
    ensures
        sends_field(s, DeviceModel::Mv6, 4),
        sends_field(s, DeviceModel::Mv6, 5),
        sends_field(s, DeviceModel::Mv6, 6),
        sends_field(s, DeviceModel::Mv6, 7),
{
    reveal(sends_field);
    let all = presets::preset_commands(s, DeviceModel::Mv6);
    assert(all[4] == DeviceCommand::Mv6Denoiser(s.denoiser_enabled));
    assert(all[5] == DeviceCommand::Mv6PopperStopper(s.popper_stopper_enabled));
    assert(all[6] == DeviceCommand::Mv6MuteBtnDisable(s.mute_btn_disabled));
    assert(all[7] == DeviceCommand::Mv6Tone(s.tone));
}

proof fn lemma_sent_mv6_3(s: Settings)
    ensures
        sends_field(s, DeviceModel::Mv6, 8),
        sends_field(s, DeviceModel::Mv6, 9),
{
    reveal(sends_field);
    let all = presets::preset_commands(s, DeviceModel::Mv6);
    assert(all[8] == DeviceCommand::Mv6GainLock(s.mv6_gain_locked));
    assert(all[9] == DeviceCommand::Mv6MonitorMix(s.monitor_mix));
}

proof fn lemma_sent_mv6(s: Settings, i: int)
    requires
        0 <= i < presets::preset_commands(s, DeviceModel::Mv6).len(),
    ensures
        sends_field(s, DeviceModel::Mv6, i),
{
    lemma_length(s, DeviceModel::Mv6);
    lemma_sent_mv6_1(s);
    lemma_sent_mv6_2(s);
    lemma_sent_mv6_3(s);
}

#[verifier::rlimit(40)]
proof fn lemma_sent_mv7plus_1(s: Settings)
    ensures
        sends_field(s, DeviceModel::Mv7Plus, 0),
        sends_field(s, DeviceModel::Mv7Plus, 1),
{
    reveal(sends_field);
    let all = presets::preset_commands(s, DeviceModel::Mv7Plus);
    assert(all[0] == DeviceCommand::Mode(s.mode == InputMode::Auto));
    assert(all[1] == DeviceCommand::Gain(s.gain_db));
}

#[verifier::rlimit(40)]
proof fn lemma_sent_mv7plus_2(s: Settings)
    ensures
        sends_field(s, DeviceModel::Mv7Plus, 2),
        sends_field(s, DeviceModel::Mv7Plus, 3),
{
    reveal(sends_field);
    let all = presets::preset_commands(s, DeviceModel::Mv7Plus);
    assert(all[2] == DeviceCommand::Mute(s.muted));
    assert(all[3] == DeviceCommand::Hpf(s.hpf));
}

#[verifier::rlimit(40)]
proof fn lemma_sent_mv7plus_3(s: Settings)
    ensures
        sends_field(s, DeviceModel::Mv7Plus, 4),
        sends_field(s, DeviceModel::Mv7Plus, 5),
{
    reveal(sends_field);
    let all = presets::preset_commands(s, DeviceModel::Mv7Plus);
    assert(all[4] == DeviceCommand::Mv6Denoiser(s.denoiser_enabled));
    assert(all[5] == DeviceCommand::Mv6PopperStopper(s.popper_stopper_enabled));
}

#[verifier::rlimit(40)]
proof fn lemma_sent_mv7plus_4(s: Settings)
    ensures
        sends_field(s, DeviceModel::Mv7Plus, 6),
        sends_field(s, DeviceModel::Mv7Plus, 7),
{
    reveal(sends_field);
    let all = presets::preset_commands(s, DeviceModel::Mv7Plus);
    assert(all[6] == DeviceCommand::Mv6MuteBtnDisable(s.mute_btn_disabled));
    assert(all[7] == DeviceCommand::Mv6Tone(s.tone));
}

#[verifier::rlimit(40)]
proof fn lemma_sent_mv7plus_5(s: Settings)
    ensures
        sends_field(s, DeviceModel::Mv7Plus, 8),
        sends_field(s, DeviceModel::Mv7Plus, 9),
{
    reveal(sends_field);
    let all = presets::preset_commands(s, DeviceModel::Mv7Plus);
    assert(all[8] == DeviceCommand::Mv6MonitorMix(s.monitor_mix));
    assert(all[9] == DeviceCommand::Limiter(s.limiter_enabled));
}

#[verifier::rlimit(40)]
proof fn lemma_sent_mv7plus_6(s: Settings)
    ensures
        sends_field(s, DeviceModel::Mv7Plus, 10),
        sends_field(s, DeviceModel::Mv7Plus, 11),
{
    reveal(sends_field);
    let all = presets::preset_commands(s, DeviceModel::Mv7Plus);
    assert(all[10] == DeviceCommand::Compressor(s.compressor));
    assert(all[11] == DeviceCommand::Mv7PlaybackMix(s.playback_mix));
}

#[verifier::rlimit(40)]
proof fn lemma_sent_mv7plus_7(s: Settings)
    ensures
        sends_field(s, DeviceModel::Mv7Plus, 12),
        sends_field(s, DeviceModel::Mv7Plus, 13),
{
    reveal(sends_field);
    let all = presets::preset_commands(s, DeviceModel::Mv7Plus);
    assert(all[12] == DeviceCommand::Mv7ReverbOutput(s.reverb_on_output));
    assert(all[13] == DeviceCommand::Mv7ReverbMonitor(s.reverb_monitoring));
}

#[verifier::rlimit(40)]
proof fn lemma_sent_mv7plus_8(s: Settings)
    ensures
        sends_field(s, DeviceModel::Mv7Plus, 14),
        sends_field(s, DeviceModel::Mv7Plus, 15),
{
    reveal(sends_field);
    let all = presets::preset_commands(s, DeviceModel::Mv7Plus);
    assert(all[14] == DeviceCommand::Mv7ReverbType(s.reverb_type));
    assert(all[15] == DeviceCommand::Mv7ReverbIntensity(s.reverb_intensity));
}

#[verifier::rlimit(40)]
proof fn lemma_sent_mv7plus_9(s: Settings)
    ensures
        sends_field(s, DeviceModel::Mv7Plus, 16),
        sends_field(s, DeviceModel::Mv7Plus, 17),
{
    reveal(sends_field);
    let all = presets::preset_commands(s, DeviceModel::Mv7Plus);
    assert(all[16] == DeviceCommand::Mv7LedBehavior(s.led_behavior));
    assert(all[17] == DeviceCommand::Mv7LedBrightness(s.led_brightness));
}

#[verifier::rlimit(40)]
proof fn lemma_sent_mv7plus_10(s: Settings)
    ensures
        sends_field(s, DeviceModel::Mv7Plus, 18),
        sends_field(s, DeviceModel::Mv7Plus, 19),
{
    reveal(sends_field);
    let all = presets::preset_commands(s, DeviceModel::Mv7Plus);
    assert(all[18] == DeviceCommand::Mv7LedLiveTheme(s.led_live_theme));
    assert(all[19] == DeviceCommand::Mv7LedSolidTheme(s.led_solid_theme));
}

#[verifier::rlimit(40)]
proof fn lemma_sent_mv7plus_11(s: Settings)
    ensures
        sends_field(s, DeviceModel::Mv7Plus, 20),
        sends_field(s, DeviceModel::Mv7Plus, 21),
{
    reveal(sends_field);
    let all = presets::preset_commands(s, DeviceModel::Mv7Plus);
    assert(all[20] == DeviceCommand::Mv7LedPulsingTheme(s.led_pulsing_theme));
    assert(all[21] == DeviceCommand::Mv7LedSolidColor(s.led_solid_rgb));
}

#[verifier::rlimit(40)]
proof fn lemma_sent_mv7plus_12(s: Settings)
    ensures
        sends_field(s, DeviceModel::Mv7Plus, 22),
        sends_field(s, DeviceModel::Mv7Plus, 23),
{
    reveal(sends_field);
    let all = presets::preset_commands(s, DeviceModel::Mv7Plus);
    assert(all[22] == DeviceCommand::Mv7LedPulsingColor(s.led_pulsing_rgb));
    assert(all[23] == DeviceCommand::Mv7LedLiveEdge(s.led_live_edge_rgb));
}

#[verifier::rlimit(40)]
proof fn lemma_sent_mv7plus_13(s: Settings)
    ensures
        sends_field(s, DeviceModel::Mv7Plus, 24),
        sends_field(s, DeviceModel::Mv7Plus, 25),
{
    reveal(sends_field);
    let all = presets::preset_commands(s, DeviceModel::Mv7Plus);
    assert(all[24] == DeviceCommand::Mv7LedLiveMiddle(s.led_live_middle_rgb));
    assert(all[25] == DeviceCommand::Mv7LedLiveInterior(s.led_live_interior_rgb));
}

proof fn lemma_sent_mv7plus(s: Settings, i: int)
    requires
        0 <= i < presets::preset_commands(s, DeviceModel::Mv7Plus).len(),
    ensures
        sends_field(s, DeviceModel::Mv7Plus, i),
{
    lemma_length(s, DeviceModel::Mv7Plus);
    lemma_sent_mv7plus_1(s);
    lemma_sent_mv7plus_2(s);
    lemma_sent_mv7plus_3(s);
    lemma_sent_mv7plus_4(s);
    lemma_sent_mv7plus_5(s);
    lemma_sent_mv7plus_6(s);
    lemma_sent_mv7plus_7(s);
    lemma_sent_mv7plus_8(s);
    lemma_sent_mv7plus_9(s);
    lemma_sent_mv7plus_10(s);
    lemma_sent_mv7plus_11(s);
    lemma_sent_mv7plus_12(s);
    lemma_sent_mv7plus_13(s);
}

proof fn lemma_sent(s: Settings, model: DeviceModel, i: int)
    requires
        0 <= i < presets::preset_commands(s, model).len(),
    ensures
        sends_field(s, model, i),
{
    match model {
        DeviceModel::Mvx2u => lemma_sent_mvx2u(s, i),
        DeviceModel::Mvx2uGen2 => lemma_sent_mvx2ugen2(s, i),
        DeviceModel::Mv6 => lemma_sent_mv6(s, i),
        DeviceModel::Mv7Plus => lemma_sent_mv7plus(s, i),
    }
}

/// A field after the first `n` commands of a preset.
proof fn lemma_loaded_so_far(
    s: Settings,
    model: DeviceModel,
    device: Map<Field, Meaning>,
    f: Field,
    n: int,
)
    requires
        exists_on_devices(f),
        0 <= n <= presets::preset_commands(s, model).len(),
    ensures
        ({
            let after = carried_out(model, device, presets::preset_commands(s, model).take(n));
            if 0 <= position(model, f) < n {
                after.dom().contains(f) && after[f] == reading(s, f)->0
            } else {
                after.dom().contains(f) == device.dom().contains(f) && after[f] == device[f]
            }
        }),
    decreases n,
{
    let commands = presets::preset_commands(s, model);
    if n > 0 {
        let part = commands.take(n);
        assert(part.drop_last() =~= commands.take(n - 1));
        assert(part.last() == commands[n - 1]);
        lemma_loaded_so_far(s, model, device, f, n - 1);
        lemma_sent(s, model, n - 1);
        reveal(sends_field);
        lemma_position(model, f);
    }
}

/// Loading a preset brings a device of any model, whatever it was set to, to
/// every setting of the preset that the model has. The panel lock, which a
/// preset does not hold, and fields of other models stay as they were.
pub proof fn preset_brings_the_device_to_its_settings(
    s: Settings,
    model: DeviceModel,
    device: Map<Field, Meaning>,
    f: Field,
)
    requires
        exists_on_devices(f),
    ensures
        ({
            let after = carried_out(model, device, presets::preset_commands(s, model));
            if has(model, f) && f != Field::Named(Setting::Lock) {
                after.dom().contains(f) && Some(after[f]) == reading(s, f)
            } else {
                after.dom().contains(f) == device.dom().contains(f) && after[f] == device[f]
            }
        }),
{
    let commands = presets::preset_commands(s, model);
    assert(commands.take(commands.len() as int) =~= commands);
    lemma_position(model, f);
    lemma_loaded_so_far(s, model, device, f, commands.len() as int);
    if position(model, f) >= 0 {
        lemma_length(s, model);
    }
}

#[verifier::rlimit(60)]
proof fn lemma_length(s: Settings, model: DeviceModel)
    ensures
        presets::preset_commands(s, model).len() == (match model {
            DeviceModel::Mvx2u => 22int,
            DeviceModel::Mvx2uGen2 => 17,
            DeviceModel::Mv6 => 10,
            DeviceModel::Mv7Plus => 26,
        }),
{
    assert(presets::common_commands(s).len() == 4);
    assert(presets::band_commands(s).len() == 10);
    assert(presets::band_gain_commands(s).len() == 5);
}

/// Whatever is saved to a preset while the device is in one state, and whatever
/// the device is set to when it is loaded, loading brings back every setting
/// that the model has.
pub proof fn saving_and_loading_brings_settings_back(
    name: Seq<char>,
    saved: StateView,
    current: StateView,
    model: DeviceModel,
    device: Map<Field, Meaning>,
    f: Field,
)
    requires
        exists_on_devices(f),
        has(model, f),
        f != Field::Named(Setting::Lock),
    ensures
        ({
            let slot: SlotView = presets::snapshot(name, saved);
            let commands = presets::preset_commands(presets::restored(slot, current).settings, model);
            Some(carried_out(model, device, commands)[f]) == reading(saved.settings, f)
        }),
{
    preset_brings_the_device_to_its_settings(saved.settings, model, device, f);
}

/// The field that a change in the interface is about, and what it is to be.
/// Nothing for an action that is not about a single field.
pub open spec fn asked(action: DeviceAction) -> Option<(Field, Meaning)> {
    match action {
        DeviceAction::SetGain(v) => Some((Field::Named(Setting::Gain), Meaning::Number(v as int))),
        DeviceAction::SetMode(v) => Some(
            (Field::Named(Setting::Mode), Meaning::Word(mode_word(v))),
        ),
        DeviceAction::SetMute(v) => Some((Field::Named(Setting::Mute), Meaning::Switch(v))),
        DeviceAction::SetHpf(v) => Some(
            (Field::Named(Setting::Hpf), Meaning::Word(filter_word(v))),
        ),
        DeviceAction::SetMonitorMix(v) | DeviceAction::SetMv6MonitorMix(v) => Some(
            (Field::Named(Setting::MonitorMix), Meaning::Number(v as int)),
        ),
        DeviceAction::SetPhantom(v) => Some((Field::Named(Setting::Phantom), Meaning::Switch(v))),
        DeviceAction::SetLimiter(v) => Some((Field::Named(Setting::Limiter), Meaning::Switch(v))),
        DeviceAction::SetCompressor(v) => Some(
            (Field::Named(Setting::Compressor), Meaning::Word(compressor_word(v))),
        ),
        DeviceAction::SetEqEnable(v) => Some((Field::Named(Setting::Eq), Meaning::Switch(v))),
        DeviceAction::SetLock(v) => Some((Field::Named(Setting::Lock), Meaning::Switch(v))),
        DeviceAction::SetAutoPosition(v) => Some(
            (Field::Named(Setting::AutoPosition), Meaning::Word(position_word(v))),
        ),
        DeviceAction::SetAutoTone(v) => Some(
            (Field::Named(Setting::AutoTone), Meaning::Word(tone_word(v))),
        ),
        DeviceAction::SetAutoGain(v) => Some(
            (Field::Named(Setting::AutoGain), Meaning::Word(auto_gain_word(v))),
        ),
        DeviceAction::SetMv6Denoiser(v) => Some(
            (Field::Named(Setting::Denoiser), Meaning::Switch(v)),
        ),
        DeviceAction::SetMv6PopperStopper(v) => Some(
            (Field::Named(Setting::PopperStopper), Meaning::Switch(v)),
        ),
        DeviceAction::SetMv6Tone(v) => Some(
            (Field::Named(Setting::Tone), Meaning::Number(v as int)),
        ),
        DeviceAction::SetMv6GainLock(v) => Some(
            (Field::Named(Setting::GainLock), Meaning::Switch(v)),
        ),
        DeviceAction::SetMv6MuteBtnDisable(v) => Some(
            (Field::Named(Setting::MuteButtonDisable), Meaning::Switch(v)),
        ),
        DeviceAction::SetMv7PlaybackMix(v) => Some(
            (Field::Named(Setting::PlaybackMix), Meaning::Number(v as int)),
        ),
        DeviceAction::SetMv7ReverbOutput(v) => Some(
            (Field::Named(Setting::ReverbOutput), Meaning::Switch(v)),
        ),
        DeviceAction::SetMv7ReverbMonitor(v) => Some(
            (Field::Named(Setting::ReverbMonitor), Meaning::Switch(v)),
        ),
        DeviceAction::SetMv7ReverbPreset(v) => Some(
            (Field::Named(Setting::ReverbType), Meaning::Word(reverb_word(v))),
        ),
        DeviceAction::SetMv7ReverbIntensity(v) => Some(
            (Field::Named(Setting::ReverbIntensity), Meaning::Number(v as int)),
        ),
        DeviceAction::SetMv7LedBehavior(v) => Some(
            (Field::Named(Setting::LedBehavior), Meaning::Word(behavior_word(v))),
        ),
        DeviceAction::SetMv7LedBrightness(v) => Some(
            (Field::Named(Setting::LedBrightness), Meaning::Word(brightness_word(v))),
        ),
        DeviceAction::SetMv7LedLiveTheme(v) => Some(
            (Field::Named(Setting::LedLiveTheme), Meaning::Word(live_theme_word(v))),
        ),
        DeviceAction::SetMv7LedSolidTheme(v) => Some(
            (Field::Named(Setting::LedSolidTheme), Meaning::Word(solid_theme_word(v))),
        ),
        DeviceAction::SetMv7LedPulsingTheme(v) => Some(
            (Field::Named(Setting::LedPulsingTheme), Meaning::Word(pulsing_theme_word(v))),
        ),
        DeviceAction::SetMv7LedSolidRgb(v) => Some(
            (Field::Named(Setting::LedSolidRgb), Meaning::Color(v)),
        ),
        DeviceAction::SetMv7LedPulsingRgb(v) => Some(
            (Field::Named(Setting::LedPulsingRgb), Meaning::Color(v)),
        ),
        DeviceAction::SetMv7LedLiveEdgeRgb(v) => Some(
            (Field::Named(Setting::LedLiveEdgeRgb), Meaning::Color(v)),
        ),
        DeviceAction::SetMv7LedLiveMiddleRgb(v) => Some(
            (Field::Named(Setting::LedLiveMiddleRgb), Meaning::Color(v)),
        ),
        DeviceAction::SetMv7LedLiveInteriorRgb(v) => Some(
            (Field::Named(Setting::LedLiveInteriorRgb), Meaning::Color(v)),
        ),
        DeviceAction::SetEqBandGain(band, t) => Some(
            (Field::BandGain(band as int), Meaning::Tenths(t as int)),
        ),
        DeviceAction::SetEqBandEnable(band, on) => Some(
            (Field::BandSwitch(band as int), Meaning::Switch(on)),
        ),
        _ => None,
    }
}

/// Whether a change in the interface is one for a device of this model, as far
/// as the monitor mix is concerned.
pub open spec fn mixes_for(model: DeviceModel, action: DeviceAction) -> bool {
    match action {
        DeviceAction::SetMonitorMix(_) => model == DeviceModel::Mvx2u,
        DeviceAction::SetMv6MonitorMix(_) => model != DeviceModel::Mvx2u,
        _ => true,
    }
}

#[verifier::rlimit(60)]
#[verifier::spinoff_prover]
proof fn lemma_change(model: DeviceModel, action: DeviceAction)
    requires
        asked(action) is Some,
        mixes_for(model, action),
    ensures
        actions::change_commands(action).len() == 1,
        effect(model, actions::change_commands(action)[0]) == asked(action),
{
}

/// A change in the interface sets the device to what was asked for, and changes
/// nothing else of it.
pub proof fn change_sets_what_is_asked(
    app: AppView,
    model: DeviceModel,
    action: DeviceAction,
    shown: Seq<char>,
    device: Map<Field, Meaning>,
)
    requires
        asked(action) is Some,
        mixes_for(model, action),
    ensures
        ({
            let (f, v) = asked(action)->0;
            actions::action_step(app, true, action, shown).1 matches actions::WorkView::Send {
                commands,
            } && carried_out(model, device, commands) == device.insert(f, v)
        }),
{
    let commands = actions::change_commands(action);
    lemma_change(model, action);
    assert(commands =~= seq![commands[0]]);
    lemma_one(model, device, commands[0]);
}

proof fn lemma_words_differ()
    ensures

        forall|a: InputMode, b: InputMode|
            #[trigger] mode_word(a) == #[trigger] mode_word(b) ==> a == b,
        forall|a: MicPosition, b: MicPosition|
            #[trigger] position_word(a) == #[trigger] position_word(b) ==> a == b,
        forall|a: AutoTone, b: AutoTone|
            #[trigger] tone_word(a) == #[trigger] tone_word(b) ==> a == b,
        forall|a: AutoGain, b: AutoGain|
            #[trigger] auto_gain_word(a) == #[trigger] auto_gain_word(b) ==> a == b,
        forall|a: CompressorPreset, b: CompressorPreset|
            #[trigger] compressor_word(a) == #[trigger] compressor_word(b) ==> a == b,
        forall|a: HpfFrequency, b: HpfFrequency|
            #[trigger] filter_word(a) == #[trigger] filter_word(b) ==> a == b,
        forall|a: ReverbType, b: ReverbType|
            #[trigger] reverb_word(a) == #[trigger] reverb_word(b) ==> a == b,
        forall|a: LedBehavior, b: LedBehavior|
            #[trigger] behavior_word(a) == #[trigger] behavior_word(b) ==> a == b,
        forall|a: LedBrightness, b: LedBrightness|
            #[trigger] brightness_word(a) == #[trigger] brightness_word(b) ==> a == b,
        forall|a: LedLiveTheme, b: LedLiveTheme|
            #[trigger] live_theme_word(a) == #[trigger] live_theme_word(b) ==> a == b,
        forall|a: LedSolidTheme, b: LedSolidTheme|
            #[trigger] solid_theme_word(a) == #[trigger] solid_theme_word(b) ==> a == b,
        forall|a: LedPulsingTheme, b: LedPulsingTheme|
            #[trigger] pulsing_theme_word(a) == #[trigger] pulsing_theme_word(b) ==> a == b,
{
    reveal_strlit("auto");
    reveal_strlit("bright");
    reveal_strlit("custom");
    reveal_strlit("dark");
    reveal_strlit("default");
    reveal_strlit("far");
    reveal_strlit("fruity");
    reveal_strlit("hall");
    reveal_strlit("heavy");
    reveal_strlit("high");
    reveal_strlit("hz150");
    reveal_strlit("hz75");
    reveal_strlit("light");
    reveal_strlit("live");
    reveal_strlit("loud");
    reveal_strlit("low");
    reveal_strlit("manual");
    reveal_strlit("max");
    reveal_strlit("med");
    reveal_strlit("medium");
    reveal_strlit("natural");
    reveal_strlit("near");
    reveal_strlit("normal");
    reveal_strlit("off");
    reveal_strlit("plate");
    reveal_strlit("pulsing");
    reveal_strlit("quiet");
    reveal_strlit("seaside");
    reveal_strlit("shure");
    reveal_strlit("solid");
    reveal_strlit("space");
    reveal_strlit("studio");
    assert forall|a: InputMode, b: InputMode|
        #[trigger] mode_word(a) == #[trigger] mode_word(b) implies a == b by {
        assert("auto"@.len() != "manual"@.len());
    }
    assert forall|a: MicPosition, b: MicPosition|
        #[trigger] position_word(a) == #[trigger] position_word(b) implies a == b by {
        assert("near"@.len() != "far"@.len());
    }
    assert forall|a: AutoTone, b: AutoTone|
        #[trigger] tone_word(a) == #[trigger] tone_word(b) implies a == b by {
        assert("dark"@.len() != "natural"@.len());
        assert("dark"@.len() != "bright"@.len());
        assert("natural"@.len() != "bright"@.len());
    }
    assert forall|a: AutoGain, b: AutoGain|
        #[trigger] auto_gain_word(a) == #[trigger] auto_gain_word(b) implies a == b by {
        assert("quiet"@.len() != "normal"@.len());
        assert("quiet"@.len() != "loud"@.len());
        assert("normal"@.len() != "loud"@.len());
    }
    assert forall|a: CompressorPreset, b: CompressorPreset|
        #[trigger] compressor_word(a) == #[trigger] compressor_word(b) implies a == b by {
        assert("off"@.len() != "light"@.len());
        assert("off"@.len() != "medium"@.len());
        assert("off"@.len() != "heavy"@.len());
        assert("light"@.len() != "medium"@.len());
        assert("light"@[0] != "heavy"@[0]);
        assert("medium"@.len() != "heavy"@.len());
    }
    assert forall|a: HpfFrequency, b: HpfFrequency|
        #[trigger] filter_word(a) == #[trigger] filter_word(b) implies a == b by {
        assert("off"@.len() != "hz75"@.len());
        assert("off"@.len() != "hz150"@.len());
        assert("hz75"@.len() != "hz150"@.len());
    }
    assert forall|a: ReverbType, b: ReverbType|
        #[trigger] reverb_word(a) == #[trigger] reverb_word(b) implies a == b by {
        assert("plate"@.len() != "hall"@.len());
        assert("plate"@.len() != "studio"@.len());
        assert("hall"@.len() != "studio"@.len());
    }
    assert forall|a: LedBehavior, b: LedBehavior|
        #[trigger] behavior_word(a) == #[trigger] behavior_word(b) implies a == b by {
        assert("live"@.len() != "pulsing"@.len());
        assert("live"@.len() != "solid"@.len());
        assert("pulsing"@.len() != "solid"@.len());
    }
    assert forall|a: LedBrightness, b: LedBrightness|
        #[trigger] brightness_word(a) == #[trigger] brightness_word(b) implies a == b by {
        assert("low"@[0] != "med"@[0]);
        assert("low"@.len() != "high"@.len());
        assert("low"@[0] != "max"@[0]);
        assert("med"@.len() != "high"@.len());
        assert("med"@[1] != "max"@[1]);
        assert("high"@.len() != "max"@.len());
    }
    assert forall|a: LedLiveTheme, b: LedLiveTheme|
        #[trigger] live_theme_word(a) == #[trigger] live_theme_word(b) implies a == b by {
        assert("default"@[0] != "seaside"@[0]);
        assert("default"@.len() != "space"@.len());
        assert("default"@.len() != "fruity"@.len());
        assert("default"@.len() != "custom"@.len());
        assert("seaside"@.len() != "space"@.len());
        assert("seaside"@.len() != "fruity"@.len());
        assert("seaside"@.len() != "custom"@.len());
        assert("space"@.len() != "fruity"@.len());
        assert("space"@.len() != "custom"@.len());
        assert("fruity"@[0] != "custom"@[0]);
    }
    assert forall|a: LedSolidTheme, b: LedSolidTheme|
        #[trigger] solid_theme_word(a) == #[trigger] solid_theme_word(b) implies a == b by {
        assert("shure"@.len() != "custom"@.len());
    }
    assert forall|a: LedPulsingTheme, b: LedPulsingTheme|
        #[trigger] pulsing_theme_word(a) == #[trigger] pulsing_theme_word(b) implies a == b by {
        assert("shure"@.len() != "custom"@.len());
    }
}

/// Commands with the same effect are the same.
pub proof fn effect_tells_the_command(model: DeviceModel, a: DeviceCommand, b: DeviceCommand)
    requires
        effect(model, a) is Some,
        effect(model, a) == effect(model, b),
    ensures
        a == b,
{
    lemma_words_differ();
    reveal_strlit("auto");
    reveal_strlit("manual");
    assert("auto"@.len() != "manual"@.len());
}

/// A change in the interface and a request for the same field and value send the
/// same command.
pub proof fn change_and_request_agree(
    model: DeviceModel,
    action: DeviceAction,
    name: Seq<char>,
    s: Seq<char>,
)
    requires
        mixes_for(model, action),
        asked(action) matches Some((f, v)) && exists_on_devices(f) && has(model, f)
            && value::normalized(name) == name_of(f) && meant(range(model, f), s) == Some(v),
    ensures
        settings::requested(model, name, s) matches Ok(c) && actions::change_commands(action)
            == seq![c],
{
    let (f, v) = asked(action)->0;
    let device = Map::<Field, Meaning>::empty();
    request_sets_what_it_names(model, name, s, device, f);
    let c = settings::requested(model, name, s)->Ok_0;
    lemma_one(model, device, c);
    lemma_change(model, action);
    let commands = actions::change_commands(action);
    assert(effect(model, c) == Some((f, v))) by {
        if let Some((g, w)) = effect(model, c) {
            assert(device.insert(g, w).dom().contains(g));
            assert(device.insert(f, v).dom().contains(f));
            assert(g == f);
            assert(device.insert(g, w)[g] == w);
        } else {
            assert(device.insert(f, v).dom().contains(f));
        }
    }
    effect_tells_the_command(model, c, commands[0]);
    assert(commands =~= seq![c]);
}

/// Flattening the equalizer brings the gain of every band of the device to zero
/// and leaves every other field, on the device and in what the interface shows.
pub proof fn flattening_clears_the_gains(
    app: AppView,
    model: DeviceModel,
    shown: Seq<char>,
    device: Map<Field, Meaning>,
    f: Field,
)
    requires
        exists_on_devices(f),
    ensures
        ({
            let (after, work) = actions::action_step(app, true, DeviceAction::FlattenEq, shown);
            let s = after.device_state.settings;
            work matches actions::WorkView::Send { commands } && match f {
                Field::BandGain(_) => carried_out(model, device, commands)[f] == Meaning::Tenths(0)
                    && reading(s, f) == Some(Meaning::Tenths(0)),
                _ => carried_out(model, device, commands)[f] == device[f] && reading(s, f)
                    == reading(app.device_state.settings, f),
            }
        }),
{
    let commands = actions::change_commands(DeviceAction::FlattenEq);
    let c0 = commands.take(0);
    let c1 = commands.take(1);
    let c2 = commands.take(2);
    let c3 = commands.take(3);
    let c4 = commands.take(4);
    assert(c1.drop_last() =~= c0);
    assert(c2.drop_last() =~= c1);
    assert(c3.drop_last() =~= c2);
    assert(c4.drop_last() =~= c3);
    assert(commands.drop_last() =~= c4);
    assert(c0.len() == 0 && c1.last() == DeviceCommand::EqBandGain(0, 0) && c2.last()
        == DeviceCommand::EqBandGain(1, 0) && c3.last() == DeviceCommand::EqBandGain(2, 0)
        && c4.last() == DeviceCommand::EqBandGain(3, 0) && commands.last()
        == DeviceCommand::EqBandGain(4, 0));
    assert(carried_out(model, device, c0) == device);
    assert(carried_out(model, device, c1) == device.insert(Field::BandGain(0), Meaning::Tenths(0)));
    assert(carried_out(model, device, c2) == carried_out(model, device, c1).insert(
        Field::BandGain(1),
        Meaning::Tenths(0),
    ));
    assert(carried_out(model, device, c3) == carried_out(model, device, c2).insert(
        Field::BandGain(2),
        Meaning::Tenths(0),
    ));
    assert(carried_out(model, device, c4) == carried_out(model, device, c3).insert(
        Field::BandGain(3),
        Meaning::Tenths(0),
    ));
}

/// Every value is written as its own word.
pub proof fn words_are_the_values_names(
    mode: InputMode,
    position: MicPosition,
    tone: AutoTone,
    auto_gain: AutoGain,
    compressor: CompressorPreset,
    filter: HpfFrequency,
    reverb: ReverbType,
    behavior: LedBehavior,
    brightness: LedBrightness,
    live_theme: LedLiveTheme,
    solid_theme: LedSolidTheme,
    pulsing_theme: LedPulsingTheme,
)
    ensures
        mode.spelled() == mode_word(mode),
        position.spelled() == position_word(position),
        tone.spelled() == tone_word(tone),
        auto_gain.spelled() == auto_gain_word(auto_gain),
        compressor.spelled() == compressor_word(compressor),
        filter.spelled() == filter_word(filter),
        reverb.spelled() == reverb_word(reverb),
        behavior.spelled() == behavior_word(behavior),
        brightness.spelled() == brightness_word(brightness),
        live_theme.spelled() == live_theme_word(live_theme),
        solid_theme.spelled() == solid_theme_word(solid_theme),
        pulsing_theme.spelled() == pulsing_theme_word(pulsing_theme),
{
}

/// Words with a bar after each but the last.
pub open spec fn with_bars(list: Seq<Seq<char>>) -> Seq<char>
    decreases list.len(),
{
    if list.len() == 0 {
        Seq::empty()
    } else if list.len() == 1 {
        list[0]
    } else {
        with_bars(list.drop_last()) + " | "@ + list.last()
    }
}

/// What a range accepts, in words.
pub open spec fn range_in_words(range: Range) -> Seq<char> {
    match range {
        Range::Switch => "on | off"@,
        Range::Number { lo, hi } => if lo < 0 {
            text::signed_decimal(lo) + " to "@ + text::signed_decimal(hi)
        } else {
            text::signed_decimal(lo) + "-"@ + text::signed_decimal(hi)
        },
        Range::Words(list) => with_bars(list),
        Range::Color => "hex RRGGBB or r,g,b"@,
        Range::Gain => "gain in dB, -8.0 to +6.0"@,
    }
}

/// The help on a setting says what the setting accepts, with a remark on some.
pub proof fn help_says_what_is_accepted(setting: Setting)
    ensures
        setting.described() == (match setting {
            Setting::Gain => range_in_words(range(DeviceModel::Mvx2u, Field::Named(setting)))
                + " dB (MVX2U) or "@ + range_in_words(
                range(DeviceModel::Mv6, Field::Named(setting)),
            ) + " dB (MV6, MV7+)"@,
            Setting::MonitorMix => range_in_words(range(DeviceModel::Mvx2u, Field::Named(setting)))
                + " (percent playback)"@,
            Setting::Phantom => range_in_words(range(DeviceModel::Mvx2u, Field::Named(setting)))
                + " (48V)"@,
            Setting::Eq => range_in_words(range(DeviceModel::Mvx2u, Field::Named(setting)))
                + " (master enable)"@,
            Setting::Lock => range_in_words(range(DeviceModel::Mvx2u, Field::Named(setting)))
                + " (panel lock)"@,
            Setting::Tone => range_in_words(range(DeviceModel::Mvx2u, Field::Named(setting)))
                + " (negative = dark, positive = bright)"@,
            Setting::PlaybackMix => range_in_words(range(DeviceModel::Mvx2u, Field::Named(setting)))
                + " (percent playback)"@,
            _ => range_in_words(range(DeviceModel::Mvx2u, Field::Named(setting))),
        }),
{
    reveal_strlit(" | ");
    reveal_strlit("-");
    reveal_strlit(" to ");
    reveal_with_fuel(with_bars, 6);
    reveal_with_fuel(text::decimal, 4);
    reveal_strlit(" (48V)");
    reveal_strlit(" (master enable)");
    reveal_strlit(" (negative = dark, positive = bright)");
    reveal_strlit(" (panel lock)");
    reveal_strlit(" (percent playback)");
    reveal_strlit(" dB (MV6, MV7+)");
    reveal_strlit(" dB (MVX2U) or ");
    reveal_strlit("-10 to 10 (negative = dark, positive = bright)");
    reveal_strlit("0-100");
    reveal_strlit("0-100 (percent playback)");
    reveal_strlit("0-60 dB (MVX2U) or 0-36 dB (MV6, MV7+)");
    reveal_strlit("auto");
    reveal_strlit("auto | manual");
    reveal_strlit("bright");
    reveal_strlit("custom");
    reveal_strlit("dark");
    reveal_strlit("dark | natural | bright");
    reveal_strlit("default");
    reveal_strlit("default | seaside | space | fruity | custom");
    reveal_strlit("far");
    reveal_strlit("fruity");
    reveal_strlit("hall");
    reveal_strlit("heavy");
    reveal_strlit("high");
    reveal_strlit("hz150");
    reveal_strlit("hz75");
    reveal_strlit("light");
    reveal_strlit("live");
    reveal_strlit("live | pulsing | solid");
    reveal_strlit("loud");
    reveal_strlit("low");
    reveal_strlit("low | med | high | max");
    reveal_strlit("manual");
    reveal_strlit("max");
    reveal_strlit("med");
    reveal_strlit("medium");
    reveal_strlit("natural");
    reveal_strlit("near");
    reveal_strlit("near | far");
    reveal_strlit("normal");
    reveal_strlit("off");
    reveal_strlit("off | hz75 | hz150");
    reveal_strlit("off | light | medium | heavy");
    reveal_strlit("on | off");
    reveal_strlit("on | off (48V)");
    reveal_strlit("on | off (master enable)");
    reveal_strlit("on | off (panel lock)");
    reveal_strlit("plate");
    reveal_strlit("plate | hall | studio");
    reveal_strlit("pulsing");
    reveal_strlit("quiet");
    reveal_strlit("quiet | normal | loud");
    reveal_strlit("seaside");
    reveal_strlit("shure");
    reveal_strlit("shure | custom");
    reveal_strlit("solid");
    reveal_strlit("space");
    reveal_strlit("studio");
    assert(text::decimal(100) =~= seq!['1', '0', '0']);
    assert(text::decimal(60) =~= seq!['6', '0']);
    assert(text::decimal(36) =~= seq!['3', '6']);
    assert(text::decimal(10) =~= seq!['1', '0']);
    assert(text::decimal(0) =~= seq!['0']);
    match setting {
        Setting::Mode => {
            assert(seq!["auto"@, "manual"@].drop_last() =~= seq!["auto"@]);
            assert(setting.described()
                =~= range_in_words(range(DeviceModel::Mvx2u, Field::Named(setting))));
        },
        Setting::Hpf => {
            assert(seq!["off"@, "hz75"@].drop_last() =~= seq!["off"@]);
            assert(seq!["off"@, "hz75"@, "hz150"@].drop_last() =~= seq!["off"@, "hz75"@]);
            assert(setting.described()
                =~= range_in_words(range(DeviceModel::Mvx2u, Field::Named(setting))));
        },
        Setting::Compressor => {
            assert(seq!["off"@, "light"@].drop_last() =~= seq!["off"@]);
            assert(seq!["off"@, "light"@, "medium"@].drop_last() =~= seq!["off"@, "light"@]);
            assert(seq!["off"@, "light"@, "medium"@, "heavy"@].drop_last()
                =~= seq!["off"@, "light"@, "medium"@]);
            assert(setting.described()
                =~= range_in_words(range(DeviceModel::Mvx2u, Field::Named(setting))));
        },
        Setting::AutoPosition => {
            assert(seq!["near"@, "far"@].drop_last() =~= seq!["near"@]);
            assert(setting.described()
                =~= range_in_words(range(DeviceModel::Mvx2u, Field::Named(setting))));
        },
        Setting::AutoTone => {
            assert(seq!["dark"@, "natural"@].drop_last() =~= seq!["dark"@]);
            assert(seq!["dark"@, "natural"@, "bright"@].drop_last() =~= seq!["dark"@, "natural"@]);
            assert(setting.described()
                =~= range_in_words(range(DeviceModel::Mvx2u, Field::Named(setting))));
        },
        Setting::AutoGain => {
            assert(seq!["quiet"@, "normal"@].drop_last() =~= seq!["quiet"@]);
            assert(seq!["quiet"@, "normal"@, "loud"@].drop_last() =~= seq!["quiet"@, "normal"@]);
            assert(setting.described()
                =~= range_in_words(range(DeviceModel::Mvx2u, Field::Named(setting))));
        },
        Setting::ReverbType => {
            assert(seq!["plate"@, "hall"@].drop_last() =~= seq!["plate"@]);
            assert(seq!["plate"@, "hall"@, "studio"@].drop_last() =~= seq!["plate"@, "hall"@]);
            assert(setting.described()
                =~= range_in_words(range(DeviceModel::Mvx2u, Field::Named(setting))));
        },
        Setting::LedBehavior => {
            assert(seq!["live"@, "pulsing"@].drop_last() =~= seq!["live"@]);
            assert(seq!["live"@, "pulsing"@, "solid"@].drop_last() =~= seq!["live"@, "pulsing"@]);
            assert(setting.described()
                =~= range_in_words(range(DeviceModel::Mvx2u, Field::Named(setting))));
        },
        Setting::LedBrightness => {
            assert(seq!["low"@, "med"@].drop_last() =~= seq!["low"@]);
            assert(seq!["low"@, "med"@, "high"@].drop_last() =~= seq!["low"@, "med"@]);
            assert(seq!["low"@, "med"@, "high"@, "max"@].drop_last()
                =~= seq!["low"@, "med"@, "high"@]);
            assert(setting.described()
                =~= range_in_words(range(DeviceModel::Mvx2u, Field::Named(setting))));
        },
        Setting::LedLiveTheme => {
            assert(seq!["default"@, "seaside"@].drop_last() =~= seq!["default"@]);
            assert(seq!["default"@, "seaside"@, "space"@].drop_last()
                =~= seq!["default"@, "seaside"@]);
            assert(seq!["default"@, "seaside"@, "space"@, "fruity"@].drop_last()
                =~= seq!["default"@, "seaside"@, "space"@]);
            assert(seq!["default"@, "seaside"@, "space"@, "fruity"@, "custom"@].drop_last()
                =~= seq!["default"@, "seaside"@, "space"@, "fruity"@]);
            assert(setting.described()
                =~= range_in_words(range(DeviceModel::Mvx2u, Field::Named(setting))));
        },
        Setting::LedSolidTheme => {
            assert(seq!["shure"@, "custom"@].drop_last() =~= seq!["shure"@]);
            assert(setting.described()
                =~= range_in_words(range(DeviceModel::Mvx2u, Field::Named(setting))));
        },
        Setting::LedPulsingTheme => {
            assert(seq!["shure"@, "custom"@].drop_last() =~= seq!["shure"@]);
            assert(setting.described()
                =~= range_in_words(range(DeviceModel::Mvx2u, Field::Named(setting))));
        },
        Setting::Gain => {
            assert(setting.described() =~= seq!['0'] + "-"@ + seq!['6', '0'] + " dB (MVX2U) or "@
                + (seq!['0'] + "-"@ + seq!['3', '6']) + " dB (MV6, MV7+)"@);
        },
        Setting::Tone => {
            assert(setting.described() =~= (seq!['-'] + seq!['1', '0']) + " to "@ + seq!['1', '0']
                + " (negative = dark, positive = bright)"@);
        },
        Setting::MonitorMix | Setting::PlaybackMix => {
            assert(setting.described() =~= seq!['0'] + "-"@ + seq!['1', '0', '0']
                + " (percent playback)"@);
        },
        Setting::ReverbIntensity => {
            assert(setting.described() =~= seq!['0'] + "-"@ + seq!['1', '0', '0']);
        },
        Setting::Phantom => {
            assert(setting.described() =~= "on | off"@ + " (48V)"@);
        },
        Setting::Eq => {
            assert(setting.described() =~= "on | off"@ + " (master enable)"@);
        },
        Setting::Lock => {
            assert(setting.described() =~= "on | off"@ + " (panel lock)"@);
        },
        _ => {},
    }
}

/// Where a setting stands in the catalog.
pub open spec fn place(setting: Setting) -> int {
    match setting {
        Setting::Gain => 0,
        Setting::Mode => 1,
        Setting::Mute => 2,
        Setting::Hpf => 3,
        Setting::MonitorMix => 4,
        Setting::Phantom => 5,
        Setting::Limiter => 6,
        Setting::Compressor => 7,
        Setting::Eq => 8,
        Setting::Lock => 9,
        Setting::AutoPosition => 10,
        Setting::AutoTone => 11,
        Setting::AutoGain => 12,
        Setting::Denoiser => 13,
        Setting::PopperStopper => 14,
        Setting::Tone => 15,
        Setting::GainLock => 16,
        Setting::MuteButtonDisable => 17,
        Setting::PlaybackMix => 18,
        Setting::ReverbOutput => 19,
        Setting::ReverbMonitor => 20,
        Setting::ReverbType => 21,
        Setting::ReverbIntensity => 22,
        Setting::LedBehavior => 23,
        Setting::LedBrightness => 24,
        Setting::LedLiveTheme => 25,
        Setting::LedSolidTheme => 26,
        Setting::LedPulsingTheme => 27,
        Setting::LedSolidRgb => 28,
        Setting::LedPulsingRgb => 29,
        Setting::LedLiveEdgeRgb => 30,
        Setting::LedLiveMiddleRgb => 31,
        Setting::LedLiveInteriorRgb => 32,
    }
}

/// The age of a model, by generation.
pub open spec fn rank(model: DeviceModel) -> int {
    match model {
        DeviceModel::Mvx2u => 0,
        DeviceModel::Mvx2uGen2 => 1,
        DeviceModel::Mv6 => 2,
        DeviceModel::Mv7Plus => 3,
    }
}

/// The catalog has one entry for every field, under its name, with what it
/// accepts: first the settings in their places, then the gain and the switch of
/// each band.
pub proof fn catalog_has_every_field(f: Field)
    requires
        exists_on_devices(f),
    ensures
        catalog::rows().len() == 43,
        ({
            let i = match f {
                Field::Named(setting) => place(setting),
                Field::BandGain(band) => 33 + 2 * band,
                Field::BandSwitch(band) => 34 + 2 * band,
            };
            let row = catalog::rows()[i];
            row.name == name_of(f) && (!(f is Named) ==> row.values == range_in_words(
                range(DeviceModel::Mvx2u, f),
            ))
        }),
{
    lemma_name(f);
    match f {
        Field::Named(setting) => {
            assert(catalog::named_settings()[place(setting)] == setting);
            assert(catalog::rows()[place(setting)] == catalog::named_row(setting));
        },
        Field::BandGain(band) => {
            assert(catalog::rows()[33 + 2 * band] == catalog::band_row(2 * band));
        },
        Field::BandSwitch(band) => {
            assert(catalog::rows()[34 + 2 * band] == catalog::band_row(2 * band + 1));
        },
    }
}

/// An entry of the catalog lists its models by generation, each once.
pub proof fn models_are_listed_by_generation(i: int, j: int, k: int)
    requires
        0 <= i < catalog::rows().len(),
        0 <= j < k < catalog::rows()[i].models.len(),
    ensures
        rank(catalog::rows()[i].models[j]) < rank(catalog::rows()[i].models[k]),
{
    let n = catalog::named_settings().len();
    if i < n {
        let setting = catalog::named_settings()[i];
        assert(catalog::rows()[i] == catalog::named_row(setting));
        lemma_listed_by_generation(setting.group(), j, k);
    } else {
        assert(catalog::rows()[i] == catalog::band_row(i - n));
        lemma_listed_by_generation(
            if (i - n) % 2 == 1 {
                ModelGroup::Gen1
            } else {
                ModelGroup::Equalizing
            },
            j,
            k,
        );
    }
}

proof fn lemma_listed_by_generation(group: ModelGroup, j: int, k: int)
    requires
        0 <= j < k < catalog::members(group).len(),
    ensures
        rank(catalog::members(group)[j]) < rank(catalog::members(group)[k]),
{
}

/// The device is reset by that action, and by no other.
pub proof fn only_a_reset_resets(action: DeviceAction, i: int)
    requires
        0 <= i < actions::change_commands(action).len(),
    ensures
        actions::change_commands(action)[i] == DeviceCommand::FactoryReset <==> action
            == DeviceAction::FactoryReset,
{
}

} // verus!
