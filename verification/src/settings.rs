//! Changing a setting by name: from a name and a value to the command for the
//! device.

use vstd::prelude::*;

use crate::catalog;
use crate::catalog::Setting;
use crate::error;
use crate::error::{Fault, SettingError};
use crate::presets;
use crate::protocol::{
    AutoGain, AutoTone, CompressorPreset, DeviceCommand, DeviceModel, HpfFrequency, InputMode,
    LedBehavior, LedBrightness, LedLiveTheme, LedPulsingTheme, LedSolidTheme, MicPosition,
    ReverbType,
};
use crate::value;

verus! {

/// The command for a value, or the fault of the value.
pub open spec fn outcome<T>(parsed: Result<T, Fault>, command: spec_fn(T) -> DeviceCommand) -> Result<
    DeviceCommand,
    Fault,
> {
    match parsed {
        Ok(v) => Ok(command(v)),
        Err(fault) => Err(fault),
    }
}

/// The command that sets a setting with a name of its own to a value.
pub open spec fn setting_command(
    model: DeviceModel,
    setting: Setting,
    value: Seq<char>,
) -> Result<DeviceCommand, Fault> {
    match setting {
        Setting::Gain => outcome(
            value::bounded_byte(value, model.gain_limit()),
            |n: u8| DeviceCommand::Gain(n),
        ),
        Setting::Mode => outcome(
            value::token::<InputMode>(value),
            |m: InputMode| DeviceCommand::Mode(m == InputMode::Auto),
        ),
        Setting::Mute => outcome(value::on_off(value), |on: bool| DeviceCommand::Mute(on)),
        Setting::Hpf => outcome(
            value::token::<HpfFrequency>(value),
            |t: HpfFrequency| DeviceCommand::Hpf(t),
        ),
        Setting::MonitorMix => outcome(
            value::bounded_byte(value, 100),
            |n: u8|
                if model == DeviceModel::Mvx2u {
                    DeviceCommand::MonitorMix(n)
                } else {
                    DeviceCommand::Mv6MonitorMix(n)
                },
        ),
        Setting::Phantom => outcome(value::on_off(value), |on: bool| DeviceCommand::Phantom(on)),
        Setting::Limiter => outcome(value::on_off(value), |on: bool| DeviceCommand::Limiter(on)),
        Setting::Compressor => outcome(
            value::token::<CompressorPreset>(value),
            |t: CompressorPreset| DeviceCommand::Compressor(t),
        ),
        Setting::Eq => outcome(value::on_off(value), |on: bool| DeviceCommand::EqEnable(on)),
        Setting::Lock => outcome(value::on_off(value), |on: bool| DeviceCommand::Lock(on)),
        Setting::AutoPosition => outcome(
            value::token::<MicPosition>(value),
            |t: MicPosition| DeviceCommand::AutoPosition(t),
        ),
        Setting::AutoTone => outcome(
            value::token::<AutoTone>(value),
            |t: AutoTone| DeviceCommand::AutoTone(t),
        ),
        Setting::AutoGain => outcome(
            value::token::<AutoGain>(value),
            |t: AutoGain| DeviceCommand::AutoGain(t),
        ),
        Setting::Denoiser => outcome(
            value::on_off(value),
            |on: bool| DeviceCommand::Mv6Denoiser(on),
        ),
        Setting::PopperStopper => outcome(
            value::on_off(value),
            |on: bool| DeviceCommand::Mv6PopperStopper(on),
        ),
        Setting::Tone => outcome(
            value::bounded_i8(value, -10, 10),
            |n: i8| DeviceCommand::Mv6Tone(n),
        ),
        Setting::GainLock => outcome(
            value::on_off(value),
            |on: bool| DeviceCommand::Mv6GainLock(on),
        ),
        Setting::MuteButtonDisable => outcome(
            value::on_off(value),
            |on: bool| DeviceCommand::Mv6MuteBtnDisable(on),
        ),
        Setting::PlaybackMix => outcome(
            value::bounded_byte(value, 100),
            |n: u8| DeviceCommand::Mv7PlaybackMix(n),
        ),
        Setting::ReverbOutput => outcome(
            value::on_off(value),
            |on: bool| DeviceCommand::Mv7ReverbOutput(on),
        ),
        Setting::ReverbMonitor => outcome(
            value::on_off(value),
            |on: bool| DeviceCommand::Mv7ReverbMonitor(on),
        ),
        Setting::ReverbType => outcome(
            value::token::<ReverbType>(value),
            |t: ReverbType| DeviceCommand::Mv7ReverbType(t),
        ),
        Setting::ReverbIntensity => outcome(
            value::bounded_byte(value, 100),
            |n: u8| DeviceCommand::Mv7ReverbIntensity(n),
        ),
        Setting::LedBehavior => outcome(
            value::token::<LedBehavior>(value),
            |t: LedBehavior| DeviceCommand::Mv7LedBehavior(t),
        ),
        Setting::LedBrightness => outcome(
            value::token::<LedBrightness>(value),
            |t: LedBrightness| DeviceCommand::Mv7LedBrightness(t),
        ),
        Setting::LedLiveTheme => outcome(
            value::token::<LedLiveTheme>(value),
            |t: LedLiveTheme| DeviceCommand::Mv7LedLiveTheme(t),
        ),
        Setting::LedSolidTheme => outcome(
            value::token::<LedSolidTheme>(value),
            |t: LedSolidTheme| DeviceCommand::Mv7LedSolidTheme(t),
        ),
        Setting::LedPulsingTheme => outcome(
            value::token::<LedPulsingTheme>(value),
            |t: LedPulsingTheme| DeviceCommand::Mv7LedPulsingTheme(t),
        ),
        Setting::LedSolidRgb => outcome(
            value::color(value),
            |rgb: [u8; 3]| DeviceCommand::Mv7LedSolidColor(rgb),
        ),
        Setting::LedPulsingRgb => outcome(
            value::color(value),
            |rgb: [u8; 3]| DeviceCommand::Mv7LedPulsingColor(rgb),
        ),
        Setting::LedLiveEdgeRgb => outcome(
            value::color(value),
            |rgb: [u8; 3]| DeviceCommand::Mv7LedLiveEdge(rgb),
        ),
        Setting::LedLiveMiddleRgb => outcome(
            value::color(value),
            |rgb: [u8; 3]| DeviceCommand::Mv7LedLiveMiddle(rgb),
        ),
        Setting::LedLiveInteriorRgb => outcome(
            value::color(value),
            |rgb: [u8; 3]| DeviceCommand::Mv7LedLiveInterior(rgb),
        ),
    }
}

/// The command that sets the setting under a key to a value.
pub open spec fn key_command(model: DeviceModel, key: Seq<char>, value: Seq<char>) -> Result<
    DeviceCommand,
    Fault,
> {
    match catalog::setting_named(key) {
        Some(setting) => setting_command(model, setting, value),
        None => match catalog::band_of(key) {
            Some((band, true)) => outcome(
                value::on_off(value),
                |on: bool| DeviceCommand::EqBandEnable(band, on),
            ),
            Some((band, false)) => outcome(
                value::db_tenths(value),
                |t: i16| DeviceCommand::EqBandGain(band, t),
            ),
            None => Err(Fault::NoHandler { key }),
        },
    }
}

fn dispatch_named(model: DeviceModel, setting: Setting, value: &str) -> (r: Result<
    DeviceCommand,
    SettingError,
>)
    ensures
        error::agrees(r, setting_command(model, setting, value@)),
{
    match setting {
        Setting::Gain => match value::parse_u8_max(value, model.max_gain_db()) {
            Ok(v) => Ok(DeviceCommand::Gain(v)),
            Err(e) => Err(e),
        },
        Setting::Mode => match value::parse_token::<InputMode>(value) {
            Ok(v) => Ok(DeviceCommand::Mode(v == InputMode::Auto)),
            Err(e) => Err(e),
        },
        Setting::Mute => match value::parse_bool(value) {
            Ok(v) => Ok(DeviceCommand::Mute(v)),
            Err(e) => Err(e),
        },
        Setting::Hpf => match value::parse_token::<HpfFrequency>(value) {
            Ok(v) => Ok(DeviceCommand::Hpf(v)),
            Err(e) => Err(e),
        },
        Setting::MonitorMix => match value::parse_u8_max(value, 100) {
            Ok(v) => {
                if model == DeviceModel::Mvx2u {
                    Ok(DeviceCommand::MonitorMix(v))
                } else {
                    Ok(DeviceCommand::Mv6MonitorMix(v))
                }
            },
            Err(e) => Err(e),
        },
        Setting::Phantom => match value::parse_bool(value) {
            Ok(v) => Ok(DeviceCommand::Phantom(v)),
            Err(e) => Err(e),
        },
        Setting::Limiter => match value::parse_bool(value) {
            Ok(v) => Ok(DeviceCommand::Limiter(v)),
            Err(e) => Err(e),
        },
        Setting::Compressor => match value::parse_token::<CompressorPreset>(value) {
            Ok(v) => Ok(DeviceCommand::Compressor(v)),
            Err(e) => Err(e),
        },
        Setting::Eq => match value::parse_bool(value) {
            Ok(v) => Ok(DeviceCommand::EqEnable(v)),
            Err(e) => Err(e),
        },
        Setting::Lock => match value::parse_bool(value) {
            Ok(v) => Ok(DeviceCommand::Lock(v)),
            Err(e) => Err(e),
        },
        Setting::AutoPosition => match value::parse_token::<MicPosition>(value) {
            Ok(v) => Ok(DeviceCommand::AutoPosition(v)),
            Err(e) => Err(e),
        },
        Setting::AutoTone => match value::parse_token::<AutoTone>(value) {
            Ok(v) => Ok(DeviceCommand::AutoTone(v)),
            Err(e) => Err(e),
        },
        Setting::AutoGain => match value::parse_token::<AutoGain>(value) {
            Ok(v) => Ok(DeviceCommand::AutoGain(v)),
            Err(e) => Err(e),
        },
        Setting::Denoiser => match value::parse_bool(value) {
            Ok(v) => Ok(DeviceCommand::Mv6Denoiser(v)),
            Err(e) => Err(e),
        },
        Setting::PopperStopper => match value::parse_bool(value) {
            Ok(v) => Ok(DeviceCommand::Mv6PopperStopper(v)),
            Err(e) => Err(e),
        },
        Setting::Tone => match value::parse_i8_range(value, -10, 10) {
            Ok(v) => Ok(DeviceCommand::Mv6Tone(v)),
            Err(e) => Err(e),
        },
        Setting::GainLock => match value::parse_bool(value) {
            Ok(v) => Ok(DeviceCommand::Mv6GainLock(v)),
            Err(e) => Err(e),
        },
        Setting::MuteButtonDisable => match value::parse_bool(value) {
            Ok(v) => Ok(DeviceCommand::Mv6MuteBtnDisable(v)),
            Err(e) => Err(e),
        },
        Setting::PlaybackMix => match value::parse_u8_max(value, 100) {
            Ok(v) => Ok(DeviceCommand::Mv7PlaybackMix(v)),
            Err(e) => Err(e),
        },
        Setting::ReverbOutput => match value::parse_bool(value) {
            Ok(v) => Ok(DeviceCommand::Mv7ReverbOutput(v)),
            Err(e) => Err(e),
        },
        Setting::ReverbMonitor => match value::parse_bool(value) {
            Ok(v) => Ok(DeviceCommand::Mv7ReverbMonitor(v)),
            Err(e) => Err(e),
        },
        Setting::ReverbType => match value::parse_token::<ReverbType>(value) {
            Ok(v) => Ok(DeviceCommand::Mv7ReverbType(v)),
            Err(e) => Err(e),
        },
        Setting::ReverbIntensity => match value::parse_u8_max(value, 100) {
            Ok(v) => Ok(DeviceCommand::Mv7ReverbIntensity(v)),
            Err(e) => Err(e),
        },
        Setting::LedBehavior => match value::parse_token::<LedBehavior>(value) {
            Ok(v) => Ok(DeviceCommand::Mv7LedBehavior(v)),
            Err(e) => Err(e),
        },
        Setting::LedBrightness => match value::parse_token::<LedBrightness>(value) {
            Ok(v) => Ok(DeviceCommand::Mv7LedBrightness(v)),
            Err(e) => Err(e),
        },
        Setting::LedLiveTheme => match value::parse_token::<LedLiveTheme>(value) {
            Ok(v) => Ok(DeviceCommand::Mv7LedLiveTheme(v)),
            Err(e) => Err(e),
        },
        Setting::LedSolidTheme => match value::parse_token::<LedSolidTheme>(value) {
            Ok(v) => Ok(DeviceCommand::Mv7LedSolidTheme(v)),
            Err(e) => Err(e),
        },
        Setting::LedPulsingTheme => match value::parse_token::<LedPulsingTheme>(value) {
            Ok(v) => Ok(DeviceCommand::Mv7LedPulsingTheme(v)),
            Err(e) => Err(e),
        },
        Setting::LedSolidRgb => match value::parse_rgb(value) {
            Ok(v) => Ok(DeviceCommand::Mv7LedSolidColor(v)),
            Err(e) => Err(e),
        },
        Setting::LedPulsingRgb => match value::parse_rgb(value) {
            Ok(v) => Ok(DeviceCommand::Mv7LedPulsingColor(v)),
            Err(e) => Err(e),
        },
        Setting::LedLiveEdgeRgb => match value::parse_rgb(value) {
            Ok(v) => Ok(DeviceCommand::Mv7LedLiveEdge(v)),
            Err(e) => Err(e),
        },
        Setting::LedLiveMiddleRgb => match value::parse_rgb(value) {
            Ok(v) => Ok(DeviceCommand::Mv7LedLiveMiddle(v)),
            Err(e) => Err(e),
        },
        Setting::LedLiveInteriorRgb => match value::parse_rgb(value) {
            Ok(v) => Ok(DeviceCommand::Mv7LedLiveInterior(v)),
            Err(e) => Err(e),
        },
    }
}

/// Turns a key and a value into the command for a device of a model.
pub fn dispatch_set(model: DeviceModel, key: &str, value: &str) -> (r: Result<
    DeviceCommand,
    SettingError,
>)
    ensures
        error::agrees(r, key_command(model, key@, value@)),
{
    match catalog::find_setting(key) {
        Some(setting) => dispatch_named(model, setting, value),
        None => match catalog::eq_band(key) {
            Some((band, is_enable)) => {
                if is_enable {
                    match value::parse_bool(value) {
                        Ok(on) => Ok(DeviceCommand::EqBandEnable(band, on)),
                        Err(e) => Err(e),
                    }
                } else {
                    match value::parse_db_tenths(value) {
                        Ok(t) => Ok(DeviceCommand::EqBandGain(band, t)),
                        Err(e) => Err(e),
                    }
                }
            },
            None => Err(SettingError::NoHandler { key: key.to_owned() }),
        },
    }
}

/// The command that a request to change a setting comes to.
pub open spec fn requested(model: DeviceModel, setting: Seq<char>, value: Seq<char>) -> Result<
    DeviceCommand,
    Fault,
> {
    let key = value::normalized(setting);
    match catalog::support(model, key) {
        Ok(()) => key_command(model, key, value),
        Err(fault) => Err(fault),
    }
}

/// Checks a request to change a setting and turns it into the command for a
/// device of a model.
pub fn apply_setting(model: DeviceModel, setting: &str, value: &str) -> (r: Result<
    DeviceCommand,
    SettingError,
>)
    ensures
        error::agrees(r, requested(model, setting@, value@)),
{
    let key = value::normalize(setting);
    match catalog::ensure_supported(model, key.as_str()) {
        Ok(()) => dispatch_set(model, key.as_str(), value),
        Err(e) => Err(e),
    }
}

/// No request is left without something that carries it out.
pub proof fn requests_are_handled(model: DeviceModel, setting: Seq<char>, value: Seq<char>)
    ensures
        requested(model, setting, value) matches Err(fault) ==> !(fault is NoHandler),
{
    let key = value::normalized(setting);
    if catalog::support(model, key) is Ok {
        catalog::supported_is_handled(model, key);
    }
}

/// How a request is spelled does not matter: names that differ only in case
/// and separators come to the same command.
pub proof fn spelling_does_not_matter(
    model: DeviceModel,
    a: Seq<char>,
    b: Seq<char>,
    value: Seq<char>,
)
    requires
        a.len() == b.len(),
        forall|i: int| 0 <= i < a.len() ==> value::fold(#[trigger] a[i]) == value::fold(b[i]),
    ensures
        requested(model, a, value) == requested(model, b, value),
{
    value::normalize_unifies(a, b);
}

/// A command changes the setting that was named, and no other.
pub proof fn command_is_for_the_setting(model: DeviceModel, setting: Seq<char>, value: Seq<char>)
    ensures
        requested(model, setting, value) matches Ok(command) ==> presets::command_name(command)
            == Some(value::normalized(setting)),
{
    let key = value::normalized(setting);
    if requested(model, setting, value) is Ok {
        catalog::supported_key(model, key);
    }
}

/// The numbers in a command are within the bounds of its setting.
pub open spec fn within_bounds(model: DeviceModel, command: DeviceCommand) -> bool {
    match command {
        DeviceCommand::Gain(n) => n <= model.gain_limit(),
        DeviceCommand::MonitorMix(n) | DeviceCommand::Mv6MonitorMix(n)
        | DeviceCommand::Mv7PlaybackMix(n) | DeviceCommand::Mv7ReverbIntensity(n) => n <= 100,
        DeviceCommand::Mv6Tone(n) => -10 <= n <= 10,
        DeviceCommand::EqBandGain(band, t) => band < 5 && -80 <= t <= 60,
        DeviceCommand::EqBandEnable(band, _) => band < 5,
        _ => true,
    }
}

/// A request that is carried out sends only numbers within bounds.
pub proof fn requests_are_within_bounds(model: DeviceModel, setting: Seq<char>, value: Seq<char>)
    ensures
        requested(model, setting, value) matches Ok(command) ==> within_bounds(model, command),
{
    value::accepted_gain_is_in_range(value);
}

} // verus!
