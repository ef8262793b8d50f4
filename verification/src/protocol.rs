//! The microphones: their models, their settings, and the commands that change
//! a setting on a device.

use vstd::prelude::*;

verus! {

/// A microphone that can be configured.
#[derive(Clone, Copy, PartialEq, Eq, Structural, Debug)]
pub enum DeviceModel {
    Mvx2u,
    Mvx2uGen2,
    Mv6,
    Mv7Plus,
}

impl DeviceModel {
    /// The name under which users know the model.
    pub open spec fn name(self) -> Seq<char> {
        match self {
            DeviceModel::Mvx2u => "MVX2U"@,
            DeviceModel::Mvx2uGen2 => "MVX2U Gen 2"@,
            DeviceModel::Mv6 => "MV6"@,
            DeviceModel::Mv7Plus => "MV7+"@,
        }
    }

    /// The highest gain of the model, in decibels.
    pub open spec fn gain_limit(self) -> u8 {
        match self {
            DeviceModel::Mvx2u | DeviceModel::Mvx2uGen2 => 60,
            DeviceModel::Mv6 | DeviceModel::Mv7Plus => 36,
        }
    }

    /// The name under which users know the model.
    pub fn display_name(&self) -> (name: &'static str)
        ensures
            name@ == self.name(),
    {
        match self {
            DeviceModel::Mvx2u => "MVX2U",
            DeviceModel::Mvx2uGen2 => "MVX2U Gen 2",
            DeviceModel::Mv6 => "MV6",
            DeviceModel::Mv7Plus => "MV7+",
        }
    }

    /// The highest gain of the model, in decibels.
    pub fn max_gain_db(&self) -> (limit: u8)
        ensures
            limit == self.gain_limit(),
    {
        match self {
            DeviceModel::Mvx2u | DeviceModel::Mvx2uGen2 => 60,
            DeviceModel::Mv6 | DeviceModel::Mv7Plus => 36,
        }
    }
}

/// How the input level is set.
#[derive(Clone, Copy, PartialEq, Eq, Structural, Debug)]
pub enum InputMode {
    Auto,
    Manual,
}

/// How far the speaker sits from the microphone, in automatic mode.
#[derive(Clone, Copy, PartialEq, Eq, Structural, Debug)]
pub enum MicPosition {
    Near,
    Far,
}

/// The tone of automatic mode.
#[derive(Clone, Copy, PartialEq, Eq, Structural, Debug)]
pub enum AutoTone {
    Dark,
    Natural,
    Bright,
}

/// The loudness of automatic mode.
#[derive(Clone, Copy, PartialEq, Eq, Structural, Debug)]
pub enum AutoGain {
    Quiet,
    Normal,
    Loud,
}

/// How strongly the signal is compressed.
#[derive(Clone, Copy, PartialEq, Eq, Structural, Debug)]
pub enum CompressorPreset {
    Off,
    Light,
    Medium,
    Heavy,
}

/// Where the high-pass filter cuts.
#[derive(Clone, Copy, PartialEq, Eq, Structural, Debug)]
pub enum HpfFrequency {
    Off,
    Hz75,
    Hz150,
}

/// The room that reverb sounds like.
#[derive(Clone, Copy, PartialEq, Eq, Structural, Debug)]
pub enum ReverbType {
    Plate,
    Hall,
    Studio,
}

/// What the light strip does.
#[derive(Clone, Copy, PartialEq, Eq, Structural, Debug)]
pub enum LedBehavior {
    Live,
    Pulsing,
    Solid,
}

/// How bright the light strip is.
#[derive(Clone, Copy, PartialEq, Eq, Structural, Debug)]
pub enum LedBrightness {
    Low,
    Med,
    High,
    Max,
}

/// The colors of the live light strip.
#[derive(Clone, Copy, PartialEq, Eq, Structural, Debug)]
pub enum LedLiveTheme {
    Default,
    Seaside,
    Space,
    Fruity,
    Custom,
}

/// The color of the solid light strip.
#[derive(Clone, Copy, PartialEq, Eq, Structural, Debug)]
pub enum LedSolidTheme {
    Shure,
    Custom,
}

/// The color of the pulsing light strip.
#[derive(Clone, Copy, PartialEq, Eq, Structural, Debug)]
pub enum LedPulsingTheme {
    Shure,
    Custom,
}

/// One band of the equalizer.
#[derive(Clone, Copy, PartialEq, Eq, Structural, Debug)]
pub struct EqBand {
    pub enabled: bool,
    /// In tenths of a decibel.
    pub gain_db: i16,
}

/// Every setting that a preset holds.
#[derive(Clone, Copy, Debug)]
pub struct Settings {
    pub mode: InputMode,
    pub gain_db: u8,
    pub muted: bool,
    pub hpf: HpfFrequency,
    pub auto_position: MicPosition,
    pub auto_tone: AutoTone,
    pub auto_gain: AutoGain,
    pub phantom_power: bool,
    pub monitor_mix: u8,
    pub limiter_enabled: bool,
    pub compressor: CompressorPreset,
    pub eq_enabled: bool,
    pub eq_bands: [EqBand; 5],
    pub denoiser_enabled: bool,
    pub popper_stopper_enabled: bool,
    pub tone: i8,
    pub mv6_gain_locked: bool,
    pub mute_btn_disabled: bool,
    pub playback_mix: u8,
    pub reverb_on_output: bool,
    pub reverb_monitoring: bool,
    pub reverb_type: ReverbType,
    pub reverb_intensity: u8,
    pub led_behavior: LedBehavior,
    pub led_brightness: LedBrightness,
    pub led_live_theme: LedLiveTheme,
    pub led_solid_theme: LedSolidTheme,
    pub led_pulsing_theme: LedPulsingTheme,
    pub led_solid_rgb: [u8; 3],
    pub led_pulsing_rgb: [u8; 3],
    pub led_live_edge_rgb: [u8; 3],
    pub led_live_middle_rgb: [u8; 3],
    pub led_live_interior_rgb: [u8; 3],
}

/// What a device is set to.
#[derive(Debug)]
pub struct DeviceState {
    pub serial_number: String,
    pub settings: Settings,
}

/// A single change of a setting on a device.
#[derive(Clone, Copy, Debug)]
pub enum DeviceCommand {
    /// True for automatic mode.
    Mode(bool),
    Gain(u8),
    Mute(bool),
    Hpf(HpfFrequency),
    AutoPosition(MicPosition),
    AutoTone(AutoTone),
    AutoGain(AutoGain),
    Phantom(bool),
    MonitorMix(u8),
    Limiter(bool),
    Compressor(CompressorPreset),
    EqEnable(bool),
    EqBandEnable(usize, bool),
    EqBandGain(usize, i16),
    Lock(bool),
    Mv6Denoiser(bool),
    Mv6PopperStopper(bool),
    Mv6MuteBtnDisable(bool),
    Mv6Tone(i8),
    Mv6GainLock(bool),
    Mv6MonitorMix(u8),
    Mv7PlaybackMix(u8),
    Mv7ReverbOutput(bool),
    Mv7ReverbMonitor(bool),
    Mv7ReverbType(ReverbType),
    Mv7ReverbIntensity(u8),
    Mv7LedBehavior(LedBehavior),
    Mv7LedBrightness(LedBrightness),
    Mv7LedLiveTheme(LedLiveTheme),
    Mv7LedSolidTheme(LedSolidTheme),
    Mv7LedPulsingTheme(LedPulsingTheme),
    Mv7LedSolidColor([u8; 3]),
    Mv7LedPulsingColor([u8; 3]),
    Mv7LedLiveEdge([u8; 3]),
    Mv7LedLiveMiddle([u8; 3]),
    Mv7LedLiveInterior([u8; 3]),
    FactoryReset,
}

} // verus!
