//! The settings that can be changed by name, the values that they take and the
//! models that have them.

use vstd::prelude::*;

use crate::error;
use crate::error::{Fault, SettingError};
use crate::number;
use crate::protocol::DeviceModel;
use crate::text;

verus! {

/// Models that share a setting.
#[derive(Clone, Copy, PartialEq, Eq, Structural, Debug)]
pub enum ModelGroup {
    /// Every model.
    All,
    /// The models with an XLR input.
    Xlr,
    /// The models with a limiter and a compressor.
    Compressing,
    /// The models with an equalizer.
    Equalizing,
    /// The first generation alone.
    Gen1,
    /// The models with the later signal processor.
    Dsp3,
    /// The models whose gain can be locked.
    GainLocking,
    /// The models with a mute button.
    MuteButton,
    /// The model with a light strip.
    Mv7,
}

/// The models of a group.
pub open spec fn members(group: ModelGroup) -> Seq<DeviceModel> {
    match group {
        ModelGroup::All => seq![
            DeviceModel::Mvx2u,
            DeviceModel::Mvx2uGen2,
            DeviceModel::Mv6,
            DeviceModel::Mv7Plus,
        ],
        ModelGroup::Xlr => seq![DeviceModel::Mvx2u, DeviceModel::Mvx2uGen2],
        ModelGroup::Compressing => seq![
            DeviceModel::Mvx2u,
            DeviceModel::Mvx2uGen2,
            DeviceModel::Mv7Plus,
        ],
        ModelGroup::Equalizing => seq![DeviceModel::Mvx2u, DeviceModel::Mvx2uGen2],
        ModelGroup::Gen1 => seq![DeviceModel::Mvx2u],
        ModelGroup::Dsp3 => seq![DeviceModel::Mvx2uGen2, DeviceModel::Mv6, DeviceModel::Mv7Plus],
        ModelGroup::GainLocking => seq![DeviceModel::Mvx2uGen2, DeviceModel::Mv6],
        ModelGroup::MuteButton => seq![DeviceModel::Mv6, DeviceModel::Mv7Plus],
        ModelGroup::Mv7 => seq![DeviceModel::Mv7Plus],
    }
}

/// The models of a group.
pub fn member_list(group: ModelGroup) -> (list: &'static [DeviceModel])
    ensures
        list@ == members(group),
{
    match group {
        ModelGroup::All => &[
            DeviceModel::Mvx2u,
            DeviceModel::Mvx2uGen2,
            DeviceModel::Mv6,
            DeviceModel::Mv7Plus,
        ],
        ModelGroup::Xlr => &[DeviceModel::Mvx2u, DeviceModel::Mvx2uGen2],
        ModelGroup::Compressing => &[DeviceModel::Mvx2u, DeviceModel::Mvx2uGen2, DeviceModel::Mv7Plus],
        ModelGroup::Equalizing => &[DeviceModel::Mvx2u, DeviceModel::Mvx2uGen2],
        ModelGroup::Gen1 => &[DeviceModel::Mvx2u],
        ModelGroup::Dsp3 => &[DeviceModel::Mvx2uGen2, DeviceModel::Mv6, DeviceModel::Mv7Plus],
        ModelGroup::GainLocking => &[DeviceModel::Mvx2uGen2, DeviceModel::Mv6],
        ModelGroup::MuteButton => &[DeviceModel::Mv6, DeviceModel::Mv7Plus],
        ModelGroup::Mv7 => &[DeviceModel::Mv7Plus],
    }
}

/// A setting with a name of its own; the bands of the equalizer are named by
/// their number instead.
#[derive(Clone, Copy, PartialEq, Eq, Structural, Debug)]
pub enum Setting {
    Gain,
    Mode,
    Mute,
    Hpf,
    MonitorMix,
    Phantom,
    Limiter,
    Compressor,
    Eq,
    Lock,
    AutoPosition,
    AutoTone,
    AutoGain,
    Denoiser,
    PopperStopper,
    Tone,
    GainLock,
    MuteButtonDisable,
    PlaybackMix,
    ReverbOutput,
    ReverbMonitor,
    ReverbType,
    ReverbIntensity,
    LedBehavior,
    LedBrightness,
    LedLiveTheme,
    LedSolidTheme,
    LedPulsingTheme,
    LedSolidRgb,
    LedPulsingRgb,
    LedLiveEdgeRgb,
    LedLiveMiddleRgb,
    LedLiveInteriorRgb,
}

impl Setting {
    /// The name of the setting.
    pub open spec fn spelled(self) -> Seq<char> {
        match self {
            Setting::Gain => "gain"@,
            Setting::Mode => "mode"@,
            Setting::Mute => "mute"@,
            Setting::Hpf => "hpf"@,
            Setting::MonitorMix => "monitor-mix"@,
            Setting::Phantom => "phantom"@,
            Setting::Limiter => "limiter"@,
            Setting::Compressor => "compressor"@,
            Setting::Eq => "eq"@,
            Setting::Lock => "lock"@,
            Setting::AutoPosition => "auto-position"@,
            Setting::AutoTone => "auto-tone"@,
            Setting::AutoGain => "auto-gain"@,
            Setting::Denoiser => "denoiser"@,
            Setting::PopperStopper => "popper-stopper"@,
            Setting::Tone => "tone"@,
            Setting::GainLock => "gain-lock"@,
            Setting::MuteButtonDisable => "mute-button-disable"@,
            Setting::PlaybackMix => "playback-mix"@,
            Setting::ReverbOutput => "reverb-output"@,
            Setting::ReverbMonitor => "reverb-monitor"@,
            Setting::ReverbType => "reverb-type"@,
            Setting::ReverbIntensity => "reverb-intensity"@,
            Setting::LedBehavior => "led-behavior"@,
            Setting::LedBrightness => "led-brightness"@,
            Setting::LedLiveTheme => "led-live-theme"@,
            Setting::LedSolidTheme => "led-solid-theme"@,
            Setting::LedPulsingTheme => "led-pulsing-theme"@,
            Setting::LedSolidRgb => "led-solid-rgb"@,
            Setting::LedPulsingRgb => "led-pulsing-rgb"@,
            Setting::LedLiveEdgeRgb => "led-live-edge-rgb"@,
            Setting::LedLiveMiddleRgb => "led-live-middle-rgb"@,
            Setting::LedLiveInteriorRgb => "led-live-interior-rgb"@,
        }
    }

    /// The values that the setting takes, in words.
    pub open spec fn described(self) -> Seq<char> {
        match self {
            Setting::Gain => "0-60 dB (MVX2U) or 0-36 dB (MV6, MV7+)"@,
            Setting::Mode => "auto | manual"@,
            Setting::Mute => "on | off"@,
            Setting::Hpf => "off | hz75 | hz150"@,
            Setting::MonitorMix => "0-100 (percent playback)"@,
            Setting::Phantom => "on | off (48V)"@,
            Setting::Limiter => "on | off"@,
            Setting::Compressor => "off | light | medium | heavy"@,
            Setting::Eq => "on | off (master enable)"@,
            Setting::Lock => "on | off (panel lock)"@,
            Setting::AutoPosition => "near | far"@,
            Setting::AutoTone => "dark | natural | bright"@,
            Setting::AutoGain => "quiet | normal | loud"@,
            Setting::Denoiser => "on | off"@,
            Setting::PopperStopper => "on | off"@,
            Setting::Tone => "-10 to 10 (negative = dark, positive = bright)"@,
            Setting::GainLock => "on | off"@,
            Setting::MuteButtonDisable => "on | off"@,
            Setting::PlaybackMix => "0-100 (percent playback)"@,
            Setting::ReverbOutput => "on | off"@,
            Setting::ReverbMonitor => "on | off"@,
            Setting::ReverbType => "plate | hall | studio"@,
            Setting::ReverbIntensity => "0-100"@,
            Setting::LedBehavior => "live | pulsing | solid"@,
            Setting::LedBrightness => "low | med | high | max"@,
            Setting::LedLiveTheme => "default | seaside | space | fruity | custom"@,
            Setting::LedSolidTheme => "shure | custom"@,
            Setting::LedPulsingTheme => "shure | custom"@,
            Setting::LedSolidRgb => "hex RRGGBB or r,g,b"@,
            Setting::LedPulsingRgb => "hex RRGGBB or r,g,b"@,
            Setting::LedLiveEdgeRgb => "hex RRGGBB or r,g,b"@,
            Setting::LedLiveMiddleRgb => "hex RRGGBB or r,g,b"@,
            Setting::LedLiveInteriorRgb => "hex RRGGBB or r,g,b"@,
        }
    }

    /// The models that have the setting.
    pub open spec fn group(self) -> ModelGroup {
        match self {
            Setting::Gain => ModelGroup::All,
            Setting::Mode => ModelGroup::All,
            Setting::Mute => ModelGroup::All,
            Setting::Hpf => ModelGroup::All,
            Setting::MonitorMix => ModelGroup::All,
            Setting::Phantom => ModelGroup::Xlr,
            Setting::Limiter => ModelGroup::Compressing,
            Setting::Compressor => ModelGroup::Compressing,
            Setting::Eq => ModelGroup::Gen1,
            Setting::Lock => ModelGroup::Gen1,
            Setting::AutoPosition => ModelGroup::Gen1,
            Setting::AutoTone => ModelGroup::Gen1,
            Setting::AutoGain => ModelGroup::Gen1,
            Setting::Denoiser => ModelGroup::Dsp3,
            Setting::PopperStopper => ModelGroup::Dsp3,
            Setting::Tone => ModelGroup::Dsp3,
            Setting::GainLock => ModelGroup::GainLocking,
            Setting::MuteButtonDisable => ModelGroup::MuteButton,
            Setting::PlaybackMix => ModelGroup::Mv7,
            Setting::ReverbOutput => ModelGroup::Mv7,
            Setting::ReverbMonitor => ModelGroup::Mv7,
            Setting::ReverbType => ModelGroup::Mv7,
            Setting::ReverbIntensity => ModelGroup::Mv7,
            Setting::LedBehavior => ModelGroup::Mv7,
            Setting::LedBrightness => ModelGroup::Mv7,
            Setting::LedLiveTheme => ModelGroup::Mv7,
            Setting::LedSolidTheme => ModelGroup::Mv7,
            Setting::LedPulsingTheme => ModelGroup::Mv7,
            Setting::LedSolidRgb => ModelGroup::Mv7,
            Setting::LedPulsingRgb => ModelGroup::Mv7,
            Setting::LedLiveEdgeRgb => ModelGroup::Mv7,
            Setting::LedLiveMiddleRgb => ModelGroup::Mv7,
            Setting::LedLiveInteriorRgb => ModelGroup::Mv7,
        }
    }

    /// The name of the setting.
    pub fn name(&self) -> (name: &'static str)
        ensures
            name@ == self.spelled(),
    {
        match self {
            Setting::Gain => "gain",
            Setting::Mode => "mode",
            Setting::Mute => "mute",
            Setting::Hpf => "hpf",
            Setting::MonitorMix => "monitor-mix",
            Setting::Phantom => "phantom",
            Setting::Limiter => "limiter",
            Setting::Compressor => "compressor",
            Setting::Eq => "eq",
            Setting::Lock => "lock",
            Setting::AutoPosition => "auto-position",
            Setting::AutoTone => "auto-tone",
            Setting::AutoGain => "auto-gain",
            Setting::Denoiser => "denoiser",
            Setting::PopperStopper => "popper-stopper",
            Setting::Tone => "tone",
            Setting::GainLock => "gain-lock",
            Setting::MuteButtonDisable => "mute-button-disable",
            Setting::PlaybackMix => "playback-mix",
            Setting::ReverbOutput => "reverb-output",
            Setting::ReverbMonitor => "reverb-monitor",
            Setting::ReverbType => "reverb-type",
            Setting::ReverbIntensity => "reverb-intensity",
            Setting::LedBehavior => "led-behavior",
            Setting::LedBrightness => "led-brightness",
            Setting::LedLiveTheme => "led-live-theme",
            Setting::LedSolidTheme => "led-solid-theme",
            Setting::LedPulsingTheme => "led-pulsing-theme",
            Setting::LedSolidRgb => "led-solid-rgb",
            Setting::LedPulsingRgb => "led-pulsing-rgb",
            Setting::LedLiveEdgeRgb => "led-live-edge-rgb",
            Setting::LedLiveMiddleRgb => "led-live-middle-rgb",
            Setting::LedLiveInteriorRgb => "led-live-interior-rgb",
        }
    }

    /// The values that the setting takes, in words.
    pub fn values(&self) -> (values: &'static str)
        ensures
            values@ == self.described(),
    {
        match self {
            Setting::Gain => "0-60 dB (MVX2U) or 0-36 dB (MV6, MV7+)",
            Setting::Mode => "auto | manual",
            Setting::Mute => "on | off",
            Setting::Hpf => "off | hz75 | hz150",
            Setting::MonitorMix => "0-100 (percent playback)",
            Setting::Phantom => "on | off (48V)",
            Setting::Limiter => "on | off",
            Setting::Compressor => "off | light | medium | heavy",
            Setting::Eq => "on | off (master enable)",
            Setting::Lock => "on | off (panel lock)",
            Setting::AutoPosition => "near | far",
            Setting::AutoTone => "dark | natural | bright",
            Setting::AutoGain => "quiet | normal | loud",
            Setting::Denoiser => "on | off",
            Setting::PopperStopper => "on | off",
            Setting::Tone => "-10 to 10 (negative = dark, positive = bright)",
            Setting::GainLock => "on | off",
            Setting::MuteButtonDisable => "on | off",
            Setting::PlaybackMix => "0-100 (percent playback)",
            Setting::ReverbOutput => "on | off",
            Setting::ReverbMonitor => "on | off",
            Setting::ReverbType => "plate | hall | studio",
            Setting::ReverbIntensity => "0-100",
            Setting::LedBehavior => "live | pulsing | solid",
            Setting::LedBrightness => "low | med | high | max",
            Setting::LedLiveTheme => "default | seaside | space | fruity | custom",
            Setting::LedSolidTheme => "shure | custom",
            Setting::LedPulsingTheme => "shure | custom",
            Setting::LedSolidRgb => "hex RRGGBB or r,g,b",
            Setting::LedPulsingRgb => "hex RRGGBB or r,g,b",
            Setting::LedLiveEdgeRgb => "hex RRGGBB or r,g,b",
            Setting::LedLiveMiddleRgb => "hex RRGGBB or r,g,b",
            Setting::LedLiveInteriorRgb => "hex RRGGBB or r,g,b",
        }
    }

    /// The models that have the setting.
    pub fn model_group(&self) -> (group: ModelGroup)
        ensures
            group == self.group(),
    {
        match self {
            Setting::Gain => ModelGroup::All,
            Setting::Mode => ModelGroup::All,
            Setting::Mute => ModelGroup::All,
            Setting::Hpf => ModelGroup::All,
            Setting::MonitorMix => ModelGroup::All,
            Setting::Phantom => ModelGroup::Xlr,
            Setting::Limiter => ModelGroup::Compressing,
            Setting::Compressor => ModelGroup::Compressing,
            Setting::Eq => ModelGroup::Gen1,
            Setting::Lock => ModelGroup::Gen1,
            Setting::AutoPosition => ModelGroup::Gen1,
            Setting::AutoTone => ModelGroup::Gen1,
            Setting::AutoGain => ModelGroup::Gen1,
            Setting::Denoiser => ModelGroup::Dsp3,
            Setting::PopperStopper => ModelGroup::Dsp3,
            Setting::Tone => ModelGroup::Dsp3,
            Setting::GainLock => ModelGroup::GainLocking,
            Setting::MuteButtonDisable => ModelGroup::MuteButton,
            Setting::PlaybackMix => ModelGroup::Mv7,
            Setting::ReverbOutput => ModelGroup::Mv7,
            Setting::ReverbMonitor => ModelGroup::Mv7,
            Setting::ReverbType => ModelGroup::Mv7,
            Setting::ReverbIntensity => ModelGroup::Mv7,
            Setting::LedBehavior => ModelGroup::Mv7,
            Setting::LedBrightness => ModelGroup::Mv7,
            Setting::LedLiveTheme => ModelGroup::Mv7,
            Setting::LedSolidTheme => ModelGroup::Mv7,
            Setting::LedPulsingTheme => ModelGroup::Mv7,
            Setting::LedSolidRgb => ModelGroup::Mv7,
            Setting::LedPulsingRgb => ModelGroup::Mv7,
            Setting::LedLiveEdgeRgb => ModelGroup::Mv7,
            Setting::LedLiveMiddleRgb => ModelGroup::Mv7,
            Setting::LedLiveInteriorRgb => ModelGroup::Mv7,
        }
    }
}

/// The settings with names of their own, in the order of the catalog.
pub open spec fn named_settings() -> Seq<Setting> {
    seq![
        Setting::Gain,
        Setting::Mode,
        Setting::Mute,
        Setting::Hpf,
        Setting::MonitorMix,
        Setting::Phantom,
        Setting::Limiter,
        Setting::Compressor,
        Setting::Eq,
        Setting::Lock,
        Setting::AutoPosition,
        Setting::AutoTone,
        Setting::AutoGain,
        Setting::Denoiser,
        Setting::PopperStopper,
        Setting::Tone,
        Setting::GainLock,
        Setting::MuteButtonDisable,
        Setting::PlaybackMix,
        Setting::ReverbOutput,
        Setting::ReverbMonitor,
        Setting::ReverbType,
        Setting::ReverbIntensity,
        Setting::LedBehavior,
        Setting::LedBrightness,
        Setting::LedLiveTheme,
        Setting::LedSolidTheme,
        Setting::LedPulsingTheme,
        Setting::LedSolidRgb,
        Setting::LedPulsingRgb,
        Setting::LedLiveEdgeRgb,
        Setting::LedLiveMiddleRgb,
        Setting::LedLiveInteriorRgb,
    ]
}

fn named_list() -> (list: Vec<Setting>)
    ensures
        list@ == named_settings(),
{
    vec![
        Setting::Gain,
        Setting::Mode,
        Setting::Mute,
        Setting::Hpf,
        Setting::MonitorMix,
        Setting::Phantom,
        Setting::Limiter,
        Setting::Compressor,
        Setting::Eq,
        Setting::Lock,
        Setting::AutoPosition,
        Setting::AutoTone,
        Setting::AutoGain,
        Setting::Denoiser,
        Setting::PopperStopper,
        Setting::Tone,
        Setting::GainLock,
        Setting::MuteButtonDisable,
        Setting::PlaybackMix,
        Setting::ReverbOutput,
        Setting::ReverbMonitor,
        Setting::ReverbType,
        Setting::ReverbIntensity,
        Setting::LedBehavior,
        Setting::LedBrightness,
        Setting::LedLiveTheme,
        Setting::LedSolidTheme,
        Setting::LedPulsingTheme,
        Setting::LedSolidRgb,
        Setting::LedPulsingRgb,
        Setting::LedLiveEdgeRgb,
        Setting::LedLiveMiddleRgb,
        Setting::LedLiveInteriorRgb,
    ]
}

/// The first setting of a list that has a name.
pub open spec fn first_setting(list: Seq<Setting>, key: Seq<char>) -> Option<Setting>
    decreases list.len(),
{
    if list.len() == 0 {
        None
    } else if list[0].spelled() == key {
        Some(list[0])
    } else {
        first_setting(list.drop_first(), key)
    }
}

/// The setting of this name.
pub open spec fn setting_named(key: Seq<char>) -> Option<Setting> {
    first_setting(named_settings(), key)
}

/// Finds the setting of this name.
pub fn find_setting(key: &str) -> (setting: Option<Setting>)
    ensures
        setting == setting_named(key@),
{
    let list = named_list();
    proof {
        assert(list@.skip(0) =~= list@);
    }
    let mut i: usize = 0;
    while i < list.len()
        invariant
            i <= list@.len(),
            setting_named(key@) == first_setting(list@.skip(i as int), key@),
        decreases list@.len() - i,
    {
        if text::same_text(list[i].name(), key) {
            return Some(list[i]);
        }
        proof {
            assert(list@.skip(i as int).drop_first() =~= list@.skip(i + 1));
        }
        i += 1;
    }
    None
}

/// The band that a key of the form `eq<N>` or `eq<N>-enable` names, counted
/// from zero, and whether the key is for switching it.
pub open spec fn band_of(key: Seq<char>) -> Option<(usize, bool)> {
    if key.len() < 2 || key.take(2) != "eq"@ {
        None
    } else {
        let rest = key.skip(2);
        let is_enable = rest.len() >= 7 && rest.skip(rest.len() - 7) == "-enable"@;
        let digits = if is_enable {
            rest.take(rest.len() - 7)
        } else {
            rest
        };
        match number::unsigned(digits) {
            Some(n) if 1 <= n <= 5 => Some(((n - 1) as usize, is_enable)),
            _ => None,
        }
    }
}

/// Parses an `eq<N>` or `eq<N>-enable` key into the index of the band and
/// whether the key is for switching it.
pub fn eq_band(key: &str) -> (band: Option<(usize, bool)>)
    ensures
        band == band_of(key@),
{
    let chars = text::chars_of(key);
    if chars.len() < 2 {
        return None;
    }
    let start = text::part(&chars, 0, 2);
    proof {
        assert(start@ =~= key@.take(2));
    }
    if !text::same_text(text::text_of(&start).as_str(), "eq") {
        return None;
    }
    let rest = text::part(&chars, 2, chars.len());
    proof {
        assert(rest@ =~= key@.skip(2));
    }
    let mut digits = text::part(&rest, 0, rest.len());
    let mut is_enable = false;
    proof {
        assert(digits@ =~= rest@);
    }
    if rest.len() >= 7 {
        let end = text::part(&rest, rest.len() - 7, rest.len());
        proof {
            assert(end@ =~= rest@.skip(rest@.len() - 7));
        }
        if text::same_text(text::text_of(&end).as_str(), "-enable") {
            is_enable = true;
            digits = text::part(&rest, 0, rest.len() - 7);
            proof {
                assert(digits@ =~= rest@.take(rest@.len() - 7));
            }
        }
    }
    match number::read_unsigned(&digits, 5) {
        Some(n) => {
            if n >= 1 {
                Some(((n - 1) as usize, is_enable))
            } else {
                None
            }
        },
        None => None,
    }
}

/// One entry of the catalog.
pub struct SettingSpec {
    pub name: String,
    pub values: &'static str,
    pub models: &'static [DeviceModel],
}

/// What an entry of the catalog says.
pub struct Row {
    pub name: Seq<char>,
    pub values: Seq<char>,
    pub models: Seq<DeviceModel>,
}

impl View for SettingSpec {
    type V = Row;

    open spec fn view(&self) -> Row {
        Row { name: self.name@, values: self.values@, models: self.models@ }
    }
}

/// The entry of a setting with a name of its own.
pub open spec fn named_row(setting: Setting) -> Row {
    Row {
        name: setting.spelled(),
        values: setting.described(),
        models: members(setting.group()),
    }
}

/// The name under which a band, counted from one, is set or switched.
pub open spec fn band_name(band: int, is_enable: bool) -> Seq<char> {
    if is_enable {
        "eq"@ + text::decimal(band as nat) + "-enable"@
    } else {
        "eq"@ + text::decimal(band as nat)
    }
}

/// The entries of the bands: for each band its gain and then its switch.
pub open spec fn band_row(k: int) -> Row {
    if k % 2 == 1 {
        Row {
            name: band_name(k / 2 + 1, true),
            values: "on | off"@,
            models: members(ModelGroup::Gen1),
        }
    } else {
        Row {
            name: band_name(k / 2 + 1, false),
            values: "gain in dB, -8.0 to +6.0"@,
            models: members(ModelGroup::Equalizing),
        }
    }
}

/// The catalog: the settings with names of their own, and then the bands.
pub open spec fn rows() -> Seq<Row> {
    named_settings().map_values(|s: Setting| named_row(s)) + Seq::new(10, |k: int| band_row(k))
}

fn spec_entry(name: &str, values: &'static str, models: &'static [DeviceModel]) -> (entry:
    SettingSpec)
    ensures
        entry@ == (Row { name: name@, values: values@, models: models@ }),
{
    SettingSpec { name: name.to_owned(), values, models }
}

/// Every setting that can be changed by name, with its values and its models.
pub fn catalog() -> (entries: Vec<SettingSpec>)
    ensures
        entries@.len() == rows().len(),
        forall|i: int| 0 <= i < rows().len() ==> (#[trigger] entries@[i])@ == rows()[i],
{
    let list = named_list();
    let mut entries: Vec<SettingSpec> = Vec::new();
    for i in 0..list.len()
        invariant
            list@ == named_settings(),
            entries@.len() == i,
            forall|k: int| 0 <= k < i ==> (#[trigger] entries@[k])@ == rows()[k],
    {
        let s = list[i];
        entries.push(spec_entry(s.name(), s.values(), member_list(s.model_group())));
    }
    for b in 0..5u64
        invariant
            entries@.len() == named_settings().len() + 2 * b,
            forall|k: int| 0 <= k < entries@.len() ==> (#[trigger] entries@[k])@ == rows()[k],
    {
        let mut gain = "eq".to_owned();
        text::append_decimal(&mut gain, b + 1);
        let mut enable = gain.clone();
        enable.append("-enable");
        proof {
            let at = named_settings().len() + 2 * b;
            assert(rows()[at as int] == band_row(2 * b as int));
            assert(rows()[at + 1] == band_row(2 * b as int + 1));
        }
        entries.push(
            spec_entry(
                gain.as_str(),
                "gain in dB, -8.0 to +6.0",
                member_list(ModelGroup::Equalizing),
            ),
        );
        entries.push(
            spec_entry(enable.as_str(), "on | off", member_list(ModelGroup::Gen1)),
        );
    }
    entries
}

/// The first entry of a list that has a name.
pub open spec fn first_row(list: Seq<Row>, key: Seq<char>) -> Option<Row>
    decreases list.len(),
{
    if list.len() == 0 {
        None
    } else if list[0].name == key {
        Some(list[0])
    } else {
        first_row(list.drop_first(), key)
    }
}

/// Whether a model has a setting, and why not.
pub open spec fn support(model: DeviceModel, key: Seq<char>) -> Result<(), Fault> {
    match first_row(rows(), key) {
        None => Err(Fault::UnknownSetting { key }),
        Some(row) => if row.models.contains(model) {
            Ok(())
        } else {
            Err(Fault::Unsupported { key, model })
        },
    }
}

fn has_model(list: &[DeviceModel], model: DeviceModel) -> (b: bool)
    ensures
        b == list@.contains(model),
{
    for i in 0..list.len()
        invariant
            forall|k: int| 0 <= k < i ==> list@[k] != model,
    {
        if list[i] == model {
            return true;
        }
    }
    false
}

/// Checks that a setting exists and that the model has it.
pub fn ensure_supported(model: DeviceModel, key: &str) -> (r: Result<(), SettingError>)
    ensures
        error::agrees(r, support(model, key@)),
{
    let entries = catalog();
    let ghost list = rows();
    proof {
        assert(list.skip(0) =~= list);
    }
    let mut i: usize = 0;
    while i < entries.len()
        invariant
            i <= entries@.len() == list.len(),
            list == rows(),
            forall|k: int| 0 <= k < list.len() ==> (#[trigger] entries@[k])@ == list[k],
            first_row(rows(), key@) == first_row(list.skip(i as int), key@),
        decreases entries@.len() - i,
    {
        proof {
            assert(entries@[i as int]@ == list[i as int]);
        }
        if text::same_text(entries[i].name.as_str(), key) {
            if has_model(entries[i].models, model) {
                return Ok(());
            }
            return Err(SettingError::Unsupported { key: key.to_owned(), model });
        }
        proof {
            assert(list.skip(i as int).drop_first() =~= list.skip(i + 1));
        }
        i += 1;
    }
    Err(SettingError::UnknownSetting { key: key.to_owned() })
}

/// The length, the last character and the third character of a name; together
/// they tell all names of the catalog apart.
spec fn mark(s: Seq<char>) -> (nat, char, char) {
    (
        s.len(),
        s.last(),
        if s.len() > 2 {
            s[2]
        } else {
            s[0]
        },
    )
}

spec fn mark_of(setting: Setting) -> (nat, char, char) {
    match setting {
        Setting::Gain => (4, 'n', 'i'),
        Setting::Mode => (4, 'e', 'd'),
        Setting::Mute => (4, 'e', 't'),
        Setting::Hpf => (3, 'f', 'f'),
        Setting::MonitorMix => (11, 'x', 'n'),
        Setting::Phantom => (7, 'm', 'a'),
        Setting::Limiter => (7, 'r', 'm'),
        Setting::Compressor => (10, 'r', 'm'),
        Setting::Eq => (2, 'q', 'e'),
        Setting::Lock => (4, 'k', 'c'),
        Setting::AutoPosition => (13, 'n', 't'),
        Setting::AutoTone => (9, 'e', 't'),
        Setting::AutoGain => (9, 'n', 't'),
        Setting::Denoiser => (8, 'r', 'n'),
        Setting::PopperStopper => (14, 'r', 'p'),
        Setting::Tone => (4, 'e', 'n'),
        Setting::GainLock => (9, 'k', 'i'),
        Setting::MuteButtonDisable => (19, 'e', 't'),
        Setting::PlaybackMix => (12, 'x', 'a'),
        Setting::ReverbOutput => (13, 't', 'v'),
        Setting::ReverbMonitor => (14, 'r', 'v'),
        Setting::ReverbType => (11, 'e', 'v'),
        Setting::ReverbIntensity => (16, 'y', 'v'),
        Setting::LedBehavior => (12, 'r', 'd'),
        Setting::LedBrightness => (14, 's', 'd'),
        Setting::LedLiveTheme => (14, 'e', 'd'),
        Setting::LedSolidTheme => (15, 'e', 'd'),
        Setting::LedPulsingTheme => (17, 'e', 'd'),
        Setting::LedSolidRgb => (13, 'b', 'd'),
        Setting::LedPulsingRgb => (15, 'b', 'd'),
        Setting::LedLiveEdgeRgb => (17, 'b', 'd'),
        Setting::LedLiveMiddleRgb => (19, 'b', 'd'),
        Setting::LedLiveInteriorRgb => (21, 'b', 'd'),
    }
}

proof fn lemma_mark(setting: Setting)
    ensures
        mark(setting.spelled()) == mark_of(setting),
{
    match setting {
        Setting::Gain => {
            reveal_strlit("gain");
        },
        Setting::Mode => {
            reveal_strlit("mode");
        },
        Setting::Mute => {
            reveal_strlit("mute");
        },
        Setting::Hpf => {
            reveal_strlit("hpf");
        },
        Setting::MonitorMix => {
            reveal_strlit("monitor-mix");
        },
        Setting::Phantom => {
            reveal_strlit("phantom");
        },
        Setting::Limiter => {
            reveal_strlit("limiter");
        },
        Setting::Compressor => {
            reveal_strlit("compressor");
        },
        Setting::Eq => {
            reveal_strlit("eq");
        },
        Setting::Lock => {
            reveal_strlit("lock");
        },
        Setting::AutoPosition => {
            reveal_strlit("auto-position");
        },
        Setting::AutoTone => {
            reveal_strlit("auto-tone");
        },
        Setting::AutoGain => {
            reveal_strlit("auto-gain");
        },
        Setting::Denoiser => {
            reveal_strlit("denoiser");
        },
        Setting::PopperStopper => {
            reveal_strlit("popper-stopper");
        },
        Setting::Tone => {
            reveal_strlit("tone");
        },
        Setting::GainLock => {
            reveal_strlit("gain-lock");
        },
        Setting::MuteButtonDisable => {
            reveal_strlit("mute-button-disable");
        },
        Setting::PlaybackMix => {
            reveal_strlit("playback-mix");
        },
        Setting::ReverbOutput => {
            reveal_strlit("reverb-output");
        },
        Setting::ReverbMonitor => {
            reveal_strlit("reverb-monitor");
        },
        Setting::ReverbType => {
            reveal_strlit("reverb-type");
        },
        Setting::ReverbIntensity => {
            reveal_strlit("reverb-intensity");
        },
        Setting::LedBehavior => {
            reveal_strlit("led-behavior");
        },
        Setting::LedBrightness => {
            reveal_strlit("led-brightness");
        },
        Setting::LedLiveTheme => {
            reveal_strlit("led-live-theme");
        },
        Setting::LedSolidTheme => {
            reveal_strlit("led-solid-theme");
        },
        Setting::LedPulsingTheme => {
            reveal_strlit("led-pulsing-theme");
        },
        Setting::LedSolidRgb => {
            reveal_strlit("led-solid-rgb");
        },
        Setting::LedPulsingRgb => {
            reveal_strlit("led-pulsing-rgb");
        },
        Setting::LedLiveEdgeRgb => {
            reveal_strlit("led-live-edge-rgb");
        },
        Setting::LedLiveMiddleRgb => {
            reveal_strlit("led-live-middle-rgb");
        },
        Setting::LedLiveInteriorRgb => {
            reveal_strlit("led-live-interior-rgb");
        },
    }
}

proof fn lemma_listed(setting: Setting) -> (i: int)
    ensures
        0 <= i < named_settings().len(),
        named_settings()[i] == setting,
{
    match setting {
        Setting::Gain => 0,
        Setting::Mode => 1,
        Setting::Mute => 2,
        Setting::Hpf => 3,
        Setting::MonitorMix => 4,
        Setting::Phantom => 5,
        Setting::Limiter => 6,
        Setting::Compressor => 7,
        Setting::Eq => 8,
        Setting::Lock => 9,
        Setting::AutoPosition => 10,
        Setting::AutoTone => 11,
        Setting::AutoGain => 12,
        Setting::Denoiser => 13,
        Setting::PopperStopper => 14,
        Setting::Tone => 15,
        Setting::GainLock => 16,
        Setting::MuteButtonDisable => 17,
        Setting::PlaybackMix => 18,
        Setting::ReverbOutput => 19,
        Setting::ReverbMonitor => 20,
        Setting::ReverbType => 21,
        Setting::ReverbIntensity => 22,
        Setting::LedBehavior => 23,
        Setting::LedBrightness => 24,
        Setting::LedLiveTheme => 25,
        Setting::LedSolidTheme => 26,
        Setting::LedPulsingTheme => 27,
        Setting::LedSolidRgb => 28,
        Setting::LedPulsingRgb => 29,
        Setting::LedLiveEdgeRgb => 30,
        Setting::LedLiveMiddleRgb => 31,
        Setting::LedLiveInteriorRgb => 32,
    }
}

/// No two settings share a name.
pub proof fn names_differ(a: Setting, b: Setting)
    requires
        a != b,
    ensures
        a.spelled() != b.spelled(),
{
    lemma_mark(a);
    lemma_mark(b);
}

proof fn lemma_first_setting(list: Seq<Setting>, i: int)
    requires
        0 <= i < list.len(),
    ensures
        first_setting(list, list[i].spelled()) == Some(list[i]),
    decreases list.len(),
{
    if list[0] != list[i] {
        names_differ(list[0], list[i]);
        lemma_first_setting(list.drop_first(), i - 1);
    }
}

/// A setting is found under its own name.
pub proof fn setting_is_found(setting: Setting)
    ensures
        setting_named(setting.spelled()) == Some(setting),
{
    let i = lemma_listed(setting);
    lemma_first_setting(named_settings(), i);
}

/// The key of a band names that band.
pub proof fn band_is_found(band: int, is_enable: bool)
    requires
        1 <= band <= 5,
    ensures
        band_of(band_name(band, is_enable)) == Some(((band - 1) as usize, is_enable)),
{
    reveal_strlit("eq");
    reveal_strlit("-enable");
    let key = band_name(band, is_enable);
    let digits = text::decimal(band as nat);
    let c = text::digit_char(band);
    assert(digits =~= seq![c]);
    assert(key.take(2) =~= "eq"@);
    let rest = key.skip(2);
    if is_enable {
        assert(rest =~= digits + "-enable"@);
        assert(rest.skip(rest.len() - 7) =~= "-enable"@);
        assert(rest.take(rest.len() - 7) =~= digits);
    } else {
        assert(rest =~= digits);
    }
    assert(digits.drop_last() =~= Seq::<char>::empty());
    assert(number::value_of(digits.drop_last()) == 0);
    assert(number::value_of(digits) == band);
}

/// Every entry of the catalog is a setting of that name or a band.
pub proof fn every_entry_is_handled(i: int)
    requires
        0 <= i < rows().len(),
    ensures
        setting_named(rows()[i].name) is Some || band_of(rows()[i].name) is Some,
{
    let n = named_settings().len();
    if i < n {
        setting_is_found(named_settings()[i]);
    } else {
        let k = i - n;
        assert(rows()[i] == band_row(k));
        band_is_found(k / 2 + 1, k % 2 == 1);
    }
}

proof fn lemma_band_mark(band: int, is_enable: bool)
    requires
        1 <= band <= 5,
    ensures
        mark(band_name(band, is_enable)) == (
            if is_enable {
                10nat
            } else {
                3nat
            },
            if is_enable {
                'e'
            } else {
                text::digit_char(band)
            },
            text::digit_char(band),
        ),
{
    reveal_strlit("eq");
    reveal_strlit("-enable");
    assert(text::decimal(band as nat) =~= seq![text::digit_char(band)]);
}

/// No two entries of the catalog share a name.
pub proof fn entries_differ(i: int, j: int)
    requires
        0 <= i < rows().len(),
        0 <= j < rows().len(),
        i != j,
    ensures
        rows()[i].name != rows()[j].name,
    decreases
            (if j < i {
                1int
            } else {
                0int
            }),
{
    if j < i {
        entries_differ(j, i);
    } else {
        let n = named_settings().len();
        if j < n {
            let a = named_settings()[i];
            let b = named_settings()[j];
            assert(a != b);
            names_differ(a, b);
        } else {
            let k = j - n;
            assert(rows()[j] == band_row(k));
            lemma_band_mark(k / 2 + 1, k % 2 == 1);
            if i < n {
                lemma_mark(named_settings()[i]);
            } else {
                assert(rows()[i] == band_row(i - n));
                lemma_band_mark((i - n) / 2 + 1, (i - n) % 2 == 1);
            }
        }
    }
}

proof fn lemma_first_row(list: Seq<Row>, i: int)
    requires
        0 <= i < list.len(),
        forall|k: int| 0 <= k < i ==> (#[trigger] list[k]).name != list[i].name,
    ensures
        first_row(list, list[i].name) == Some(list[i]),
    decreases list.len(),
{
    if i > 0 {
        assert(list[0].name != list[i].name);
        let rest = list.drop_first();
        assert forall|k: int| 0 <= k < i - 1 implies (#[trigger] rest[k]).name != rest[i - 1].name by {
            assert(list[k + 1].name != list[i].name);
        }
        lemma_first_row(rest, i - 1);
    }
}

/// A model has exactly the settings whose entry in the catalog lists it.
pub proof fn entry_decides_support(model: DeviceModel, i: int)
    requires
        0 <= i < rows().len(),
    ensures
        support(model, rows()[i].name) == (if rows()[i].models.contains(model) {
            Ok::<(), Fault>(())
        } else {
            Err(Fault::Unsupported { key: rows()[i].name, model })
        }),
{
    assert forall|k: int| 0 <= k < i implies (#[trigger] rows()[k]).name != rows()[i].name by {
        entries_differ(k, i);
    }
    lemma_first_row(rows(), i);
}

/// A setting that some model has can be carried out.
pub proof fn supported_is_handled(model: DeviceModel, key: Seq<char>)
    requires
        support(model, key) is Ok,
    ensures
        setting_named(key) is Some || band_of(key) is Some,
{
    let i = lemma_row_index(rows(), key);
    every_entry_is_handled(i);
}

proof fn lemma_row_index(list: Seq<Row>, key: Seq<char>) -> (i: int)
    requires
        first_row(list, key) is Some,
    ensures
        0 <= i < list.len(),
        list[i].name == key,
        first_row(list, key) == Some(list[i]),
    decreases list.len(),
{
    if list[0].name == key {
        0
    } else {
        lemma_row_index(list.drop_first(), key) + 1
    }
}

/// Whether a model belongs to a group.
pub open spec fn belongs(group: ModelGroup, model: DeviceModel) -> bool {
    members(group).contains(model)
}

/// A setting with a name of its own is supported on exactly its models.
pub proof fn setting_support(model: DeviceModel, setting: Setting)
    ensures
        support(model, setting.spelled()) is Ok <==> belongs(setting.group(), model),
{
    let i = lemma_listed(setting);
    assert(rows()[i] == named_row(setting));
    entry_decides_support(model, i);
}

/// The gain of a band can be set on every model with an equalizer, and a band
/// can be switched on the first generation alone.
pub proof fn band_support(model: DeviceModel, band: int, is_enable: bool)
    requires
        1 <= band <= 5,
    ensures
        support(model, band_name(band, is_enable)) is Ok <==> belongs(
            if is_enable {
                ModelGroup::Gen1
            } else {
                ModelGroup::Equalizing
            },
            model,
        ),
{
    let k = 2 * (band - 1) + if is_enable {
        1int
    } else {
        0int
    };
    let i = named_settings().len() + k;
    assert(rows()[i] == band_row(k));
    entry_decides_support(model, i);
}

/// Which models belong to a group, case by case.
pub proof fn group_members(group: ModelGroup, model: DeviceModel)
    ensures
        belongs(group, model) == (match group {
            ModelGroup::All => true,
            ModelGroup::Xlr | ModelGroup::Equalizing => model == DeviceModel::Mvx2u || model
                == DeviceModel::Mvx2uGen2,
            ModelGroup::Compressing => model != DeviceModel::Mv6,
            ModelGroup::Gen1 => model == DeviceModel::Mvx2u,
            ModelGroup::Dsp3 => model != DeviceModel::Mvx2u,
            ModelGroup::GainLocking => model == DeviceModel::Mvx2uGen2 || model == DeviceModel::Mv6,
            ModelGroup::MuteButton => model == DeviceModel::Mv6 || model == DeviceModel::Mv7Plus,
            ModelGroup::Mv7 => model == DeviceModel::Mv7Plus,
        }),
{
    let list = members(group);
    assert(list.contains(list[0]));
    if list.len() > 1 {
        assert(list.contains(list[1]));
    }
    if list.len() > 2 {
        assert(list.contains(list[2]));
    }
    if list.len() > 3 {
        assert(list.contains(list[3]));
    }
}

/// A setting is found under no name but its own.
pub proof fn found_is_spelled(key: Seq<char>)
    ensures
        setting_named(key) matches Some(setting) ==> setting.spelled() == key,
{
    lemma_found_is_spelled(named_settings(), key);
}

/// No band shares its name with a setting.
pub proof fn band_names_differ(setting: Setting, band: int, is_enable: bool)
    requires
        1 <= band <= 5,
    ensures
        setting.spelled() != band_name(band, is_enable),
{
    lemma_mark(setting);
    lemma_band_mark(band, is_enable);
}

/// A key that a model has is the name of a setting, or that of a band.
pub proof fn supported_key(model: DeviceModel, key: Seq<char>)
    requires
        support(model, key) is Ok,
    ensures
        match setting_named(key) {
            Some(setting) => setting.spelled() == key,
            None => band_of(key) matches Some((band, is_enable)) && band < 5 && band_name(
                band + 1,
                is_enable,
            ) == key,
        },
{
    let i = lemma_row_index(rows(), key);
    let n = named_settings().len();
    if i < n {
        setting_is_found(named_settings()[i]);
    } else {
        let k = i - n;
        assert(rows()[i] == band_row(k));
        band_is_found(k / 2 + 1, k % 2 == 1);
        lemma_found_is_spelled(named_settings(), key);
    }
}

proof fn lemma_found_is_spelled(list: Seq<Setting>, key: Seq<char>)
    ensures
        first_setting(list, key) matches Some(setting) ==> setting.spelled() == key,
    decreases list.len(),
{
    if list.len() > 0 && list[0].spelled() != key {
        lemma_found_is_spelled(list.drop_first(), key);
    }
}

/// A key names a band exactly where it is `eq`, a number from one to five, and
/// `-enable` behind it where it is for switching the band.
pub proof fn band_keys_hold_a_number(digits: Seq<char>, is_enable: bool)
    requires
        number::unsigned(digits) is Some,
    ensures
        ({
            let n = number::unsigned(digits)->0;
            let key = "eq"@ + digits + if is_enable {
                "-enable"@
            } else {
                Seq::empty()
            };
            band_of(key) == if n == 1 || n == 2 || n == 3 || n == 4 || n == 5 {
                Some(((n - 1) as usize, is_enable))
            } else {
                None
            }
        }),
{
    reveal_strlit("eq");
    reveal_strlit("-enable");
    let end = if is_enable {
        "-enable"@
    } else {
        Seq::<char>::empty()
    };
    let key = "eq"@ + digits + end;
    assert(key.take(2) =~= "eq"@);
    let rest = key.skip(2);
    assert(rest =~= digits + end);
    if is_enable {
        assert(rest.skip(rest.len() - 7) =~= "-enable"@);
        assert(rest.take(rest.len() - 7) =~= digits);
    } else {
        assert(rest =~= digits);
        if rest.len() >= 7 && rest.skip(rest.len() - 7) == "-enable"@ {
            assert(rest.skip(rest.len() - 7)[6] == digits[digits.len() - 1]);
            number::numbers_are_written_in_digits(digits, digits.len() - 1);
        }
    }
}

/// Every key that names a band has that form: these are the digits in it.
pub proof fn keys_of_bands_have_that_form(key: Seq<char>) -> (digits: Seq<char>)
    requires
        band_of(key) is Some,
    ensures
        ({
            let (band, is_enable) = band_of(key)->0;
            key == "eq"@ + digits + (if is_enable {
                "-enable"@
            } else {
                Seq::empty()
            }) && number::unsigned(digits) == Some((band + 1) as nat) && band < 5
        }),
{
    reveal_strlit("eq");
    reveal_strlit("-enable");
    let rest = key.skip(2);
    let (band, is_enable) = band_of(key)->0;
    if is_enable {
        let digits = rest.take(rest.len() - 7);
        assert(key =~= "eq"@ + digits + "-enable"@) by {
            assert(key =~= key.take(2) + digits + rest.skip(rest.len() - 7));
        }
        digits
    } else {
        assert(key =~= "eq"@ + rest + Seq::<char>::empty()) by {
            assert(key =~= key.take(2) + rest);
        }
        rest
    }
}

} // verus!
