//! Presets: named copies of a device's settings, and the commands that bring a
//! device to them.

use vstd::prelude::*;

use crate::catalog;
use crate::catalog::{ModelGroup, Setting};
use crate::protocol::{DeviceCommand, DeviceModel, DeviceState, InputMode, Settings};
use crate::text;

verus! {

/// A preset.
#[derive(Debug)]
pub struct PresetSlot {
    pub name: String,
    pub settings: Settings,
}

/// What a preset holds.
pub struct SlotView {
    pub name: Seq<char>,
    pub settings: Settings,
}

impl View for PresetSlot {
    type V = SlotView;

    open spec fn view(&self) -> SlotView {
        SlotView { name: self.name@, settings: self.settings }
    }
}

/// What is known of a device.
pub struct StateView {
    pub serial_number: Seq<char>,
    pub settings: Settings,
}

impl View for DeviceState {
    type V = StateView;

    open spec fn view(&self) -> StateView {
        StateView { serial_number: self.serial_number@, settings: self.settings }
    }
}

/// The preset that keeps a device's settings under a name.
pub open spec fn snapshot(name: Seq<char>, state: StateView) -> SlotView {
    SlotView { name, settings: state.settings }
}

/// A device's state with the settings of a preset.
pub open spec fn restored(slot: SlotView, state: StateView) -> StateView {
    StateView { settings: slot.settings, ..state }
}

/// The name of a preset that has not been given one.
pub open spec fn default_name(slot: int) -> Seq<char> {
    "Preset "@ + text::decimal(slot as nat)
}

/// Names a preset after its slot, counted from one.
pub fn default_preset_name(slot: usize) -> (name: String)
    ensures
        name@ == default_name(slot as int),
{
    let mut name = "Preset ".to_owned();
    text::append_decimal(&mut name, slot as u64);
    name
}

impl PresetSlot {
    /// Keeps the settings of a device under a name.
    pub fn from_device_state(name: String, state: &DeviceState) -> (slot: PresetSlot)
        ensures
            slot@ == snapshot(name@, state@),
    {
        PresetSlot { name, settings: state.settings }
    }

    /// Puts the settings of the preset into a device's state.
    pub fn apply_to_device_state(&self, state: &mut DeviceState)
        ensures
            final(state)@ == restored(self@, old(state)@),
    {
        state.settings = self.settings;
    }
}

impl Clone for PresetSlot {
    fn clone(&self) -> (copy: Self)
        ensures
            copy@ == self@,
    {
        PresetSlot { name: self.name.clone(), settings: self.settings }
    }
}

impl Clone for DeviceState {
    fn clone(&self) -> (copy: Self)
        ensures
            copy@ == self@,
    {
        DeviceState { serial_number: self.serial_number.clone(), settings: self.settings }
    }
}

/// The settings that come back from a preset are those that went into it, and
/// the rest of the device's state stays.
pub proof fn preset_restores_settings(name: Seq<char>, saved: StateView, current: StateView)
    ensures
        restored(snapshot(name, saved), current).settings == saved.settings,
        restored(snapshot(name, saved), current).serial_number == current.serial_number,
{
}

/// The commands for the bands of the equalizer, switches and gains.
pub open spec fn band_commands(s: Settings) -> Seq<DeviceCommand> {
    Seq::new(
        10,
        |k: int|
            if k % 2 == 0 {
                DeviceCommand::EqBandEnable((k / 2) as usize, s.eq_bands[k / 2].enabled)
            } else {
                DeviceCommand::EqBandGain((k / 2) as usize, s.eq_bands[k / 2].gain_db)
            },
    )
}

/// The commands for the gains of the bands alone.
pub open spec fn band_gain_commands(s: Settings) -> Seq<DeviceCommand> {
    Seq::new(5, |k: int| DeviceCommand::EqBandGain(k as usize, s.eq_bands[k].gain_db))
}

/// The commands that every model takes.
pub open spec fn common_commands(s: Settings) -> Seq<DeviceCommand> {
    seq![
        DeviceCommand::Mode(s.mode == InputMode::Auto),
        DeviceCommand::Gain(s.gain_db),
        DeviceCommand::Mute(s.muted),
        DeviceCommand::Hpf(s.hpf),
    ]
}

/// The commands that bring a device of a model to these settings, in order.
pub open spec fn preset_commands(s: Settings, model: DeviceModel) -> Seq<DeviceCommand> {
    match model {
        DeviceModel::Mvx2u => common_commands(s) + seq![
            DeviceCommand::AutoPosition(s.auto_position),
            DeviceCommand::AutoTone(s.auto_tone),
            DeviceCommand::AutoGain(s.auto_gain),
            DeviceCommand::Phantom(s.phantom_power),
            DeviceCommand::MonitorMix(s.monitor_mix),
            DeviceCommand::Limiter(s.limiter_enabled),
            DeviceCommand::Compressor(s.compressor),
            DeviceCommand::EqEnable(s.eq_enabled),
        ] + band_commands(s),
        DeviceModel::Mvx2uGen2 => common_commands(s) + seq![
            DeviceCommand::Phantom(s.phantom_power),
            DeviceCommand::Mv6MonitorMix(s.monitor_mix),
            DeviceCommand::Limiter(s.limiter_enabled),
            DeviceCommand::Compressor(s.compressor),
            DeviceCommand::Mv6Denoiser(s.denoiser_enabled),
            DeviceCommand::Mv6PopperStopper(s.popper_stopper_enabled),
            DeviceCommand::Mv6Tone(s.tone),
            DeviceCommand::Mv6GainLock(s.mv6_gain_locked),
        ] + band_gain_commands(s),
        DeviceModel::Mv6 => common_commands(s) + seq![
            DeviceCommand::Mv6Denoiser(s.denoiser_enabled),
            DeviceCommand::Mv6PopperStopper(s.popper_stopper_enabled),
            DeviceCommand::Mv6MuteBtnDisable(s.mute_btn_disabled),
            DeviceCommand::Mv6Tone(s.tone),
            DeviceCommand::Mv6GainLock(s.mv6_gain_locked),
            DeviceCommand::Mv6MonitorMix(s.monitor_mix),
        ],
        DeviceModel::Mv7Plus => common_commands(s) + seq![
            DeviceCommand::Mv6Denoiser(s.denoiser_enabled),
            DeviceCommand::Mv6PopperStopper(s.popper_stopper_enabled),
            DeviceCommand::Mv6MuteBtnDisable(s.mute_btn_disabled),
            DeviceCommand::Mv6Tone(s.tone),
            DeviceCommand::Mv6MonitorMix(s.monitor_mix),
            DeviceCommand::Limiter(s.limiter_enabled),
            DeviceCommand::Compressor(s.compressor),
            DeviceCommand::Mv7PlaybackMix(s.playback_mix),
            DeviceCommand::Mv7ReverbOutput(s.reverb_on_output),
            DeviceCommand::Mv7ReverbMonitor(s.reverb_monitoring),
            DeviceCommand::Mv7ReverbType(s.reverb_type),
            DeviceCommand::Mv7ReverbIntensity(s.reverb_intensity),
            DeviceCommand::Mv7LedBehavior(s.led_behavior),
            DeviceCommand::Mv7LedBrightness(s.led_brightness),
            DeviceCommand::Mv7LedLiveTheme(s.led_live_theme),
            DeviceCommand::Mv7LedSolidTheme(s.led_solid_theme),
            DeviceCommand::Mv7LedPulsingTheme(s.led_pulsing_theme),
            DeviceCommand::Mv7LedSolidColor(s.led_solid_rgb),
            DeviceCommand::Mv7LedPulsingColor(s.led_pulsing_rgb),
            DeviceCommand::Mv7LedLiveEdge(s.led_live_edge_rgb),
            DeviceCommand::Mv7LedLiveMiddle(s.led_live_middle_rgb),
            DeviceCommand::Mv7LedLiveInterior(s.led_live_interior_rgb),
        ],
    }
}

/// The commands that bring a device to a state, in the order in which they are
/// to be sent.
pub fn apply_preset_to_device(state: &DeviceState, model: DeviceModel) -> (commands: Vec<
    DeviceCommand,
>)
    ensures
        commands@ == preset_commands(state.settings, model),
{
    let s = &state.settings;
    let mut commands: Vec<DeviceCommand> = vec![
        DeviceCommand::Mode(s.mode == InputMode::Auto),
        DeviceCommand::Gain(s.gain_db),
        DeviceCommand::Mute(s.muted),
        DeviceCommand::Hpf(s.hpf),
    ];
    let mut more: Vec<DeviceCommand> = match model {
        DeviceModel::Mvx2u => vec![
            DeviceCommand::AutoPosition(s.auto_position),
            DeviceCommand::AutoTone(s.auto_tone),
            DeviceCommand::AutoGain(s.auto_gain),
            DeviceCommand::Phantom(s.phantom_power),
            DeviceCommand::MonitorMix(s.monitor_mix),
            DeviceCommand::Limiter(s.limiter_enabled),
            DeviceCommand::Compressor(s.compressor),
            DeviceCommand::EqEnable(s.eq_enabled),
        ],
        DeviceModel::Mvx2uGen2 => vec![
            DeviceCommand::Phantom(s.phantom_power),
            DeviceCommand::Mv6MonitorMix(s.monitor_mix),
            DeviceCommand::Limiter(s.limiter_enabled),
            DeviceCommand::Compressor(s.compressor),
            DeviceCommand::Mv6Denoiser(s.denoiser_enabled),
            DeviceCommand::Mv6PopperStopper(s.popper_stopper_enabled),
            DeviceCommand::Mv6Tone(s.tone),
            DeviceCommand::Mv6GainLock(s.mv6_gain_locked),
        ],
        DeviceModel::Mv6 => vec![
            DeviceCommand::Mv6Denoiser(s.denoiser_enabled),
            DeviceCommand::Mv6PopperStopper(s.popper_stopper_enabled),
            DeviceCommand::Mv6MuteBtnDisable(s.mute_btn_disabled),
            DeviceCommand::Mv6Tone(s.tone),
            DeviceCommand::Mv6GainLock(s.mv6_gain_locked),
            DeviceCommand::Mv6MonitorMix(s.monitor_mix),
        ],
        DeviceModel::Mv7Plus => vec![
            DeviceCommand::Mv6Denoiser(s.denoiser_enabled),
            DeviceCommand::Mv6PopperStopper(s.popper_stopper_enabled),
            DeviceCommand::Mv6MuteBtnDisable(s.mute_btn_disabled),
            DeviceCommand::Mv6Tone(s.tone),
            DeviceCommand::Mv6MonitorMix(s.monitor_mix),
            DeviceCommand::Limiter(s.limiter_enabled),
            DeviceCommand::Compressor(s.compressor),
            DeviceCommand::Mv7PlaybackMix(s.playback_mix),
            DeviceCommand::Mv7ReverbOutput(s.reverb_on_output),
            DeviceCommand::Mv7ReverbMonitor(s.reverb_monitoring),
            DeviceCommand::Mv7ReverbType(s.reverb_type),
            DeviceCommand::Mv7ReverbIntensity(s.reverb_intensity),
            DeviceCommand::Mv7LedBehavior(s.led_behavior),
            DeviceCommand::Mv7LedBrightness(s.led_brightness),
            DeviceCommand::Mv7LedLiveTheme(s.led_live_theme),
            DeviceCommand::Mv7LedSolidTheme(s.led_solid_theme),
            DeviceCommand::Mv7LedPulsingTheme(s.led_pulsing_theme),
            DeviceCommand::Mv7LedSolidColor(s.led_solid_rgb),
            DeviceCommand::Mv7LedPulsingColor(s.led_pulsing_rgb),
            DeviceCommand::Mv7LedLiveEdge(s.led_live_edge_rgb),
            DeviceCommand::Mv7LedLiveMiddle(s.led_live_middle_rgb),
            DeviceCommand::Mv7LedLiveInterior(s.led_live_interior_rgb),
        ],
    };
    commands.append(&mut more);
    let ghost fixed = commands@;
    for band in 0..5usize
        invariant
            s == &state.settings,
            model == DeviceModel::Mvx2u ==> commands@ == fixed + band_commands(*s).take(2 * band),
            model == DeviceModel::Mvx2uGen2 ==> commands@ == fixed + band_gain_commands(*s).take(
                band as int,
            ),
            model == DeviceModel::Mv6 || model == DeviceModel::Mv7Plus ==> commands@ == fixed,
    {
        let eq = s.eq_bands[band];
        if model == DeviceModel::Mvx2u {
            commands.push(DeviceCommand::EqBandEnable(band, eq.enabled));
            commands.push(DeviceCommand::EqBandGain(band, eq.gain_db));
            proof {
                assert(band_commands(*s)[2 * band] == DeviceCommand::EqBandEnable(
                    band,
                    eq.enabled,
                ));
                assert(band_commands(*s)[2 * band + 1] == DeviceCommand::EqBandGain(
                    band,
                    eq.gain_db,
                ));
                assert(commands@ =~= fixed + band_commands(*s).take(2 * (band + 1)));
            }
        } else if model == DeviceModel::Mvx2uGen2 {
            commands.push(DeviceCommand::EqBandGain(band, eq.gain_db));
            proof {
                assert(commands@ =~= fixed + band_gain_commands(*s).take(band + 1));
            }
        }
    }
    proof {
        assert(band_commands(*s).take(10) =~= band_commands(*s));
        assert(band_gain_commands(*s).take(5) =~= band_gain_commands(*s));
    }
    commands
}

/// The index of the command to send next, after so many have been sent and the
/// last of them has failed or not; none where nothing more is to be sent.
pub fn next_command(commands: &Vec<DeviceCommand>, sent: usize, failed: bool) -> (next: Option<
    usize,
>)
    ensures
        next == (if !failed && sent < commands@.len() {
            Some(sent)
        } else {
            None
        }),
{
    if !failed && sent < commands.len() {
        Some(sent)
    } else {
        None
    }
}

/// Whether the call at an index took the device from one of `states` to the next
/// and gave this reply.
pub open spec fn is_call<D, E, F: Fn(D, &DeviceCommand) -> (D, Result<(), E>)>(
    send: F,
    commands: Seq<DeviceCommand>,
    states: Seq<D>,
    i: int,
    reply: Result<(), E>,
) -> bool {
    call_ensures(send, (states[i], &commands[i]), (states[i + 1], reply))
}

/// Whether the calls before an index went well.
pub open spec fn went_well<D, E, F: Fn(D, &DeviceCommand) -> (D, Result<(), E>)>(
    send: F,
    commands: Seq<DeviceCommand>,
    states: Seq<D>,
    end: int,
) -> bool {
    forall|i: int|
        0 <= i < end ==> #[trigger] is_call(send, commands, states, i, Ok::<(), E>(()))
}

/// Whether a device was brought from state to state by sending commands in
/// order, each once: `states` holds the device before the first call and after
/// every call. Either all commands were sent and went well, or the last one sent
/// failed with the error of `result` and those before it went well.
pub open spec fn is_run<D, E, F: Fn(D, &DeviceCommand) -> (D, Result<(), E>)>(
    send: F,
    commands: Seq<DeviceCommand>,
    states: Seq<D>,
    result: Result<(), E>,
) -> bool {
    let calls = states.len() - 1;
    match result {
        Ok(_) => calls == commands.len() && went_well(send, commands, states, calls),
        Err(_) => 0 < calls <= commands.len() && went_well(send, commands, states, calls - 1)
            && is_call(send, commands, states, calls - 1, result),
    }
}

/// Sends commands in order, and stops at the first that fails. The device goes
/// through `send` by value, and comes back as the last call left it: after a
/// failure nothing more is done with it.
pub fn send_all<D, E, F: Fn(D, &DeviceCommand) -> (D, Result<(), E>)>(
    device: D,
    commands: &Vec<DeviceCommand>,
    send: F,
) -> (r: (D, Result<(), E>))
    requires
        forall|d: D, i: int|
            0 <= i < commands@.len() ==> #[trigger] call_requires(send, (d, &commands@[i])),
    ensures
        exists|states: Seq<D>|
            #[trigger] is_run(send, commands@, states, r.1) && states.first() == device
                && states.last() == r.0,
{
    let ghost mut states: Seq<D> = seq![device];
    let mut current = device;
    let mut result: Result<(), E> = Ok(());
    let mut sent: usize = 0;
    loop
        invariant
            forall|d: D, i: int|
                0 <= i < commands@.len() ==> #[trigger] call_requires(send, (d, &commands@[i])),
            sent <= commands.len(),
            states.len() == sent + 1,
            states.first() == device,
            states.last() == current,
            match result {
                Ok(_) => went_well(send, commands@, states, sent as int),
                Err(_) => sent > 0 && went_well(send, commands@, states, sent - 1) && is_call(
                    send,
                    commands@,
                    states,
                    sent - 1,
                    result,
                ),
            },
        decreases commands@.len() - sent,
    {
        match next_command(commands, sent, result.is_err()) {
            None => {
                let r = (current, result);
                proof {
                    assert(is_run(send, commands@, states, r.1));
                    assert(states.first() == device);
                    assert(states.last() == r.0);
                }
                return r;
            },
            Some(i) => {
                let (after, reply) = send(current, &commands[i]);
                proof {
                    let before = states;
                    states = states.push(after);
                    assert forall|k: int| 0 <= k < i implies #[trigger] is_call(
                        send,
                        commands@,
                        states,
                        k,
                        Ok::<(), E>(()),
                    ) by {
                        assert(is_call(send, commands@, before, k, Ok::<(), E>(())));
                    }
                    assert(is_call(send, commands@, states, i as int, reply));
                    if let Ok(u) = reply {
                        assert(u == ());
                    }
                }
                current = after;
                result = reply;
                sent = i + 1;
            },
        }
    }
}

/// The setting that a command changes; none for the commands of a band and for
/// a factory reset.
pub open spec fn command_setting(command: DeviceCommand) -> Option<Setting> {
    match command {
        DeviceCommand::Mode(_) => Some(Setting::Mode),
        DeviceCommand::Gain(_) => Some(Setting::Gain),
        DeviceCommand::Mute(_) => Some(Setting::Mute),
        DeviceCommand::Hpf(_) => Some(Setting::Hpf),
        DeviceCommand::AutoPosition(_) => Some(Setting::AutoPosition),
        DeviceCommand::AutoTone(_) => Some(Setting::AutoTone),
        DeviceCommand::AutoGain(_) => Some(Setting::AutoGain),
        DeviceCommand::Phantom(_) => Some(Setting::Phantom),
        DeviceCommand::MonitorMix(_) => Some(Setting::MonitorMix),
        DeviceCommand::Limiter(_) => Some(Setting::Limiter),
        DeviceCommand::Compressor(_) => Some(Setting::Compressor),
        DeviceCommand::EqEnable(_) => Some(Setting::Eq),
        DeviceCommand::Lock(_) => Some(Setting::Lock),
        DeviceCommand::Mv6Denoiser(_) => Some(Setting::Denoiser),
        DeviceCommand::Mv6PopperStopper(_) => Some(Setting::PopperStopper),
        DeviceCommand::Mv6MuteBtnDisable(_) => Some(Setting::MuteButtonDisable),
        DeviceCommand::Mv6Tone(_) => Some(Setting::Tone),
        DeviceCommand::Mv6GainLock(_) => Some(Setting::GainLock),
        DeviceCommand::Mv6MonitorMix(_) => Some(Setting::MonitorMix),
        DeviceCommand::Mv7PlaybackMix(_) => Some(Setting::PlaybackMix),
        DeviceCommand::Mv7ReverbOutput(_) => Some(Setting::ReverbOutput),
        DeviceCommand::Mv7ReverbMonitor(_) => Some(Setting::ReverbMonitor),
        DeviceCommand::Mv7ReverbType(_) => Some(Setting::ReverbType),
        DeviceCommand::Mv7ReverbIntensity(_) => Some(Setting::ReverbIntensity),
        DeviceCommand::Mv7LedBehavior(_) => Some(Setting::LedBehavior),
        DeviceCommand::Mv7LedBrightness(_) => Some(Setting::LedBrightness),
        DeviceCommand::Mv7LedLiveTheme(_) => Some(Setting::LedLiveTheme),
        DeviceCommand::Mv7LedSolidTheme(_) => Some(Setting::LedSolidTheme),
        DeviceCommand::Mv7LedPulsingTheme(_) => Some(Setting::LedPulsingTheme),
        DeviceCommand::Mv7LedSolidColor(_) => Some(Setting::LedSolidRgb),
        DeviceCommand::Mv7LedPulsingColor(_) => Some(Setting::LedPulsingRgb),
        DeviceCommand::Mv7LedLiveEdge(_) => Some(Setting::LedLiveEdgeRgb),
        DeviceCommand::Mv7LedLiveMiddle(_) => Some(Setting::LedLiveMiddleRgb),
        DeviceCommand::Mv7LedLiveInterior(_) => Some(Setting::LedLiveInteriorRgb),
        DeviceCommand::EqBandEnable(_, _) | DeviceCommand::EqBandGain(_, _)
        | DeviceCommand::FactoryReset => None,
    }
}

/// The name of the setting that a command changes; none for a factory reset.
pub open spec fn command_name(command: DeviceCommand) -> Option<Seq<char>> {
    match command {
        DeviceCommand::EqBandEnable(band, _) => Some(catalog::band_name(band + 1, true)),
        DeviceCommand::EqBandGain(band, _) => Some(catalog::band_name(band + 1, false)),
        _ => match command_setting(command) {
            Some(setting) => Some(setting.spelled()),
            None => None,
        },
    }
}

/// Whether the model has the setting that a command changes.
spec fn suits(model: DeviceModel, command: DeviceCommand) -> bool {
    match command {
        DeviceCommand::EqBandEnable(band, _) => band < 5 && catalog::belongs(
            ModelGroup::Gen1,
            model,
        ),
        DeviceCommand::EqBandGain(band, _) => band < 5 && catalog::belongs(
            ModelGroup::Equalizing,
            model,
        ),
        _ => match command_setting(command) {
            Some(setting) => catalog::belongs(setting.group(), model),
            None => false,
        },
    }
}

proof fn lemma_suits_mvx2u(s: Settings, i: int)
    requires
        0 <= i < preset_commands(s, DeviceModel::Mvx2u).len(),
    ensures
        suits(DeviceModel::Mvx2u, preset_commands(s, DeviceModel::Mvx2u)[i]),
{
    let model = DeviceModel::Mvx2u;
    catalog::group_members(ModelGroup::All, model);
    catalog::group_members(ModelGroup::Compressing, model);
    catalog::group_members(ModelGroup::Equalizing, model);
    catalog::group_members(ModelGroup::Gen1, model);
    catalog::group_members(ModelGroup::Xlr, model);
    let command = preset_commands(s, model)[i];
    if i == 0 {
        assert(command is Mode);
    } else if i == 1 {
        assert(command is Gain);
    } else if i == 2 {
        assert(command is Mute);
    } else if i == 3 {
        assert(command is Hpf);
    } else if i == 4 {
        assert(command is AutoPosition);
    } else if i == 5 {
        assert(command is AutoTone);
    } else if i == 6 {
        assert(command is AutoGain);
    } else if i == 7 {
        assert(command is Phantom);
    } else if i == 8 {
        assert(command is MonitorMix);
    } else if i == 9 {
        assert(command is Limiter);
    } else if i == 10 {
        assert(command is Compressor);
    } else if i == 11 {
        assert(command is EqEnable);
    } else {
        assert(command == band_commands(s)[i - 12]);
    }
}

proof fn lemma_suits_mvx2ugen2(s: Settings, i: int)
    requires
        0 <= i < preset_commands(s, DeviceModel::Mvx2uGen2).len(),
    ensures
        suits(DeviceModel::Mvx2uGen2, preset_commands(s, DeviceModel::Mvx2uGen2)[i]),
{
    let model = DeviceModel::Mvx2uGen2;
    catalog::group_members(ModelGroup::All, model);
    catalog::group_members(ModelGroup::Compressing, model);
    catalog::group_members(ModelGroup::Dsp3, model);
    catalog::group_members(ModelGroup::Equalizing, model);
    catalog::group_members(ModelGroup::GainLocking, model);
    catalog::group_members(ModelGroup::Gen1, model);
    catalog::group_members(ModelGroup::Xlr, model);
    let command = preset_commands(s, model)[i];
    if i == 0 {
        assert(command is Mode);
    } else if i == 1 {
        assert(command is Gain);
    } else if i == 2 {
        assert(command is Mute);
    } else if i == 3 {
        assert(command is Hpf);
    } else if i == 4 {
        assert(command is Phantom);
    } else if i == 5 {
        assert(command is Mv6MonitorMix);
    } else if i == 6 {
        assert(command is Limiter);
    } else if i == 7 {
        assert(command is Compressor);
    } else if i == 8 {
        assert(command is Mv6Denoiser);
    } else if i == 9 {
        assert(command is Mv6PopperStopper);
    } else if i == 10 {
        assert(command is Mv6Tone);
    } else if i == 11 {
        assert(command is Mv6GainLock);
    } else {
        assert(command == band_gain_commands(s)[i - 12]);
    }
}

proof fn lemma_suits_mv6(s: Settings, i: int)
    requires
        0 <= i < preset_commands(s, DeviceModel::Mv6).len(),
    ensures
        suits(DeviceModel::Mv6, preset_commands(s, DeviceModel::Mv6)[i]),
{
    let model = DeviceModel::Mv6;
    catalog::group_members(ModelGroup::All, model);
    catalog::group_members(ModelGroup::Dsp3, model);
    catalog::group_members(ModelGroup::GainLocking, model);
    catalog::group_members(ModelGroup::MuteButton, model);
    let command = preset_commands(s, model)[i];
    if i == 0 {
        assert(command is Mode);
    } else if i == 1 {
        assert(command is Gain);
    } else if i == 2 {
        assert(command is Mute);
    } else if i == 3 {
        assert(command is Hpf);
    } else if i == 4 {
        assert(command is Mv6Denoiser);
    } else if i == 5 {
        assert(command is Mv6PopperStopper);
    } else if i == 6 {
        assert(command is Mv6MuteBtnDisable);
    } else if i == 7 {
        assert(command is Mv6Tone);
    } else if i == 8 {
        assert(command is Mv6GainLock);
    } else if i == 9 {
        assert(command is Mv6MonitorMix);
    }
}

proof fn lemma_suits_mv7plus(s: Settings, i: int)
    requires
        0 <= i < preset_commands(s, DeviceModel::Mv7Plus).len(),
    ensures
        suits(DeviceModel::Mv7Plus, preset_commands(s, DeviceModel::Mv7Plus)[i]),
{
    let model = DeviceModel::Mv7Plus;
    catalog::group_members(ModelGroup::All, model);
    catalog::group_members(ModelGroup::Compressing, model);
    catalog::group_members(ModelGroup::Dsp3, model);
    catalog::group_members(ModelGroup::MuteButton, model);
    catalog::group_members(ModelGroup::Mv7, model);
    let command = preset_commands(s, model)[i];
    if i == 0 {
        assert(command is Mode);
    } else if i == 1 {
        assert(command is Gain);
    } else if i == 2 {
        assert(command is Mute);
    } else if i == 3 {
        assert(command is Hpf);
    } else if i == 4 {
        assert(command is Mv6Denoiser);
    } else if i == 5 {
        assert(command is Mv6PopperStopper);
    } else if i == 6 {
        assert(command is Mv6MuteBtnDisable);
    } else if i == 7 {
        assert(command is Mv6Tone);
    } else if i == 8 {
        assert(command is Mv6MonitorMix);
    } else if i == 9 {
        assert(command is Limiter);
    } else if i == 10 {
        assert(command is Compressor);
    } else if i == 11 {
        assert(command is Mv7PlaybackMix);
    } else if i == 12 {
        assert(command is Mv7ReverbOutput);
    } else if i == 13 {
        assert(command is Mv7ReverbMonitor);
    } else if i == 14 {
        assert(command is Mv7ReverbType);
    } else if i == 15 {
        assert(command is Mv7ReverbIntensity);
    } else if i == 16 {
        assert(command is Mv7LedBehavior);
    } else if i == 17 {
        assert(command is Mv7LedBrightness);
    } else if i == 18 {
        assert(command is Mv7LedLiveTheme);
    } else if i == 19 {
        assert(command is Mv7LedSolidTheme);
    } else if i == 20 {
        assert(command is Mv7LedPulsingTheme);
    } else if i == 21 {
        assert(command is Mv7LedSolidColor);
    } else if i == 22 {
        assert(command is Mv7LedPulsingColor);
    } else if i == 23 {
        assert(command is Mv7LedLiveEdge);
    } else if i == 24 {
        assert(command is Mv7LedLiveMiddle);
    } else if i == 25 {
        assert(command is Mv7LedLiveInterior);
    }
}

proof fn lemma_suits(s: Settings, model: DeviceModel, i: int)
    requires
        0 <= i < preset_commands(s, model).len(),
    ensures
        suits(model, preset_commands(s, model)[i]),
{
    match model {
        DeviceModel::Mvx2u => lemma_suits_mvx2u(s, i),
        DeviceModel::Mvx2uGen2 => lemma_suits_mvx2ugen2(s, i),
        DeviceModel::Mv6 => lemma_suits_mv6(s, i),
        DeviceModel::Mv7Plus => lemma_suits_mv7plus(s, i),
    }
}

/// The commands for a preset change only settings that the model has.
pub proof fn preset_commands_are_supported(s: Settings, model: DeviceModel, i: int)
    requires
        0 <= i < preset_commands(s, model).len(),
    ensures
        command_name(preset_commands(s, model)[i]) matches Some(name) && catalog::support(
            model,
            name,
        ) is Ok,
{
    let command = preset_commands(s, model)[i];
    lemma_suits(s, model, i);
    lemma_suited_is_supported(model, command);
}

proof fn lemma_suited_is_supported(model: DeviceModel, command: DeviceCommand)
    requires
        suits(model, command),
    ensures
        command_name(command) matches Some(name) && catalog::support(model, name) is Ok,
{
    match command {
        DeviceCommand::EqBandEnable(band, _) => {
            catalog::band_support(model, band + 1, true);
        },
        DeviceCommand::EqBandGain(band, _) => {
            catalog::band_support(model, band + 1, false);
        },
        _ => {
            catalog::setting_support(model, command_setting(command)->0);
        },
    }
}

/// Every setting of a model, but for the panel lock, is among the commands for
/// a preset: at index `k`.
pub proof fn preset_commands_cover(s: Settings, model: DeviceModel, setting: Setting) -> (k: int)
    requires
        catalog::support(model, setting.spelled()) is Ok,
        setting != Setting::Lock,
    ensures
        0 <= k < preset_commands(s, model).len(),
        command_name(preset_commands(s, model)[k]) == Some(setting.spelled()),
{
    catalog::setting_support(model, setting);
    catalog::group_members(setting.group(), model);
    match model {
        DeviceModel::Mvx2u => lemma_cover_mvx2u(s, setting),
        DeviceModel::Mvx2uGen2 => lemma_cover_mvx2ugen2(s, setting),
        DeviceModel::Mv6 => lemma_cover_mv6(s, setting),
        DeviceModel::Mv7Plus => lemma_cover_mv7plus(s, setting),
    }
}

proof fn lemma_cover_mvx2u(s: Settings, setting: Setting) -> (k: int)
    requires
        matches!(
            setting,
            Setting::Mode | Setting::Gain | Setting::Mute | Setting::Hpf | Setting::AutoPosition
            | Setting::AutoTone | Setting::AutoGain | Setting::Phantom | Setting::MonitorMix
            | Setting::Limiter | Setting::Compressor | Setting::Eq
        ),
    ensures
        0 <= k < preset_commands(s, DeviceModel::Mvx2u).len(),
        command_name(preset_commands(s, DeviceModel::Mvx2u)[k]) == Some(setting.spelled()),
{
    let all = preset_commands(s, DeviceModel::Mvx2u);
    match setting {
        Setting::Mode => {
            assert(all[0] is Mode);
            0
        },
        Setting::Gain => {
            assert(all[1] is Gain);
            1
        },
        Setting::Mute => {
            assert(all[2] is Mute);
            2
        },
        Setting::Hpf => {
            assert(all[3] is Hpf);
            3
        },
        Setting::AutoPosition => {
            assert(all[4] is AutoPosition);
            4
        },
        Setting::AutoTone => {
            assert(all[5] is AutoTone);
            5
        },
        Setting::AutoGain => {
            assert(all[6] is AutoGain);
            6
        },
        Setting::Phantom => {
            assert(all[7] is Phantom);
            7
        },
        Setting::MonitorMix => {
            assert(all[8] is MonitorMix);
            8
        },
        Setting::Limiter => {
            assert(all[9] is Limiter);
            9
        },
        Setting::Compressor => {
            assert(all[10] is Compressor);
            10
        },
        Setting::Eq => {
            assert(all[11] is EqEnable);
            11
        },
        _ => 0,
    }
}

proof fn lemma_cover_mvx2ugen2(s: Settings, setting: Setting) -> (k: int)
    requires
        matches!(
            setting,
            Setting::Mode | Setting::Gain | Setting::Mute | Setting::Hpf | Setting::Phantom
            | Setting::MonitorMix | Setting::Limiter | Setting::Compressor | Setting::Denoiser
            | Setting::PopperStopper | Setting::Tone | Setting::GainLock
        ),
    ensures
        0 <= k < preset_commands(s, DeviceModel::Mvx2uGen2).len(),
        command_name(preset_commands(s, DeviceModel::Mvx2uGen2)[k]) == Some(setting.spelled()),
{
    let all = preset_commands(s, DeviceModel::Mvx2uGen2);
    match setting {
        Setting::Mode => {
            assert(all[0] is Mode);
            0
        },
        Setting::Gain => {
            assert(all[1] is Gain);
            1
        },
        Setting::Mute => {
            assert(all[2] is Mute);
            2
        },
        Setting::Hpf => {
            assert(all[3] is Hpf);
            3
        },
        Setting::Phantom => {
            assert(all[4] is Phantom);
            4
        },
        Setting::MonitorMix => {
            assert(all[5] is Mv6MonitorMix);
            5
        },
        Setting::Limiter => {
            assert(all[6] is Limiter);
            6
        },
        Setting::Compressor => {
            assert(all[7] is Compressor);
            7
        },
        Setting::Denoiser => {
            assert(all[8] is Mv6Denoiser);
            8
        },
        Setting::PopperStopper => {
            assert(all[9] is Mv6PopperStopper);
            9
        },
        Setting::Tone => {
            assert(all[10] is Mv6Tone);
            10
        },
        Setting::GainLock => {
            assert(all[11] is Mv6GainLock);
            11
        },
        _ => 0,
    }
}

proof fn lemma_cover_mv6(s: Settings, setting: Setting) -> (k: int)
    requires
        matches!(
            setting,
            Setting::Mode | Setting::Gain | Setting::Mute | Setting::Hpf | Setting::Denoiser
            | Setting::PopperStopper | Setting::MuteButtonDisable | Setting::Tone
            | Setting::GainLock | Setting::MonitorMix
        ),
    ensures
        0 <= k < preset_commands(s, DeviceModel::Mv6).len(),
        command_name(preset_commands(s, DeviceModel::Mv6)[k]) == Some(setting.spelled()),
{
    let all = preset_commands(s, DeviceModel::Mv6);
    match setting {
        Setting::Mode => {
            assert(all[0] is Mode);
            0
        },
        Setting::Gain => {
            assert(all[1] is Gain);
            1
        },
        Setting::Mute => {
            assert(all[2] is Mute);
            2
        },
        Setting::Hpf => {
            assert(all[3] is Hpf);
            3
        },
        Setting::Denoiser => {
            assert(all[4] is Mv6Denoiser);
            4
        },
        Setting::PopperStopper => {
            assert(all[5] is Mv6PopperStopper);
            5
        },
        Setting::MuteButtonDisable => {
            assert(all[6] is Mv6MuteBtnDisable);
            6
        },
        Setting::Tone => {
            assert(all[7] is Mv6Tone);
            7
        },
        Setting::GainLock => {
            assert(all[8] is Mv6GainLock);
            8
        },
        Setting::MonitorMix => {
            assert(all[9] is Mv6MonitorMix);
            9
        },
        _ => 0,
    }
}

proof fn lemma_cover_mv7plus(s: Settings, setting: Setting) -> (k: int)
    requires
        matches!(
            setting,
            Setting::Mode | Setting::Gain | Setting::Mute | Setting::Hpf | Setting::Denoiser
            | Setting::PopperStopper | Setting::MuteButtonDisable | Setting::Tone
            | Setting::MonitorMix | Setting::Limiter | Setting::Compressor | Setting::PlaybackMix
            | Setting::ReverbOutput | Setting::ReverbMonitor | Setting::ReverbType
            | Setting::ReverbIntensity | Setting::LedBehavior | Setting::LedBrightness
            | Setting::LedLiveTheme | Setting::LedSolidTheme | Setting::LedPulsingTheme
            | Setting::LedSolidRgb | Setting::LedPulsingRgb | Setting::LedLiveEdgeRgb
            | Setting::LedLiveMiddleRgb | Setting::LedLiveInteriorRgb
        ),
    ensures
        0 <= k < preset_commands(s, DeviceModel::Mv7Plus).len(),
        command_name(preset_commands(s, DeviceModel::Mv7Plus)[k]) == Some(setting.spelled()),
{
    let all = preset_commands(s, DeviceModel::Mv7Plus);
    match setting {
        Setting::Mode => {
            assert(all[0] is Mode);
            0
        },
        Setting::Gain => {
            assert(all[1] is Gain);
            1
        },
        Setting::Mute => {
            assert(all[2] is Mute);
            2
        },
        Setting::Hpf => {
            assert(all[3] is Hpf);
            3
        },
        Setting::Denoiser => {
            assert(all[4] is Mv6Denoiser);
            4
        },
        Setting::PopperStopper => {
            assert(all[5] is Mv6PopperStopper);
            5
        },
        Setting::MuteButtonDisable => {
            assert(all[6] is Mv6MuteBtnDisable);
            6
        },
        Setting::Tone => {
            assert(all[7] is Mv6Tone);
            7
        },
        Setting::MonitorMix => {
            assert(all[8] is Mv6MonitorMix);
            8
        },
        Setting::Limiter => {
            assert(all[9] is Limiter);
            9
        },
        Setting::Compressor => {
            assert(all[10] is Compressor);
            10
        },
        Setting::PlaybackMix => {
            assert(all[11] is Mv7PlaybackMix);
            11
        },
        Setting::ReverbOutput => {
            assert(all[12] is Mv7ReverbOutput);
            12
        },
        Setting::ReverbMonitor => {
            assert(all[13] is Mv7ReverbMonitor);
            13
        },
        Setting::ReverbType => {
            assert(all[14] is Mv7ReverbType);
            14
        },
        Setting::ReverbIntensity => {
            assert(all[15] is Mv7ReverbIntensity);
            15
        },
        Setting::LedBehavior => {
            assert(all[16] is Mv7LedBehavior);
            16
        },
        Setting::LedBrightness => {
            assert(all[17] is Mv7LedBrightness);
            17
        },
        Setting::LedLiveTheme => {
            assert(all[18] is Mv7LedLiveTheme);
            18
        },
        Setting::LedSolidTheme => {
            assert(all[19] is Mv7LedSolidTheme);
            19
        },
        Setting::LedPulsingTheme => {
            assert(all[20] is Mv7LedPulsingTheme);
            20
        },
        Setting::LedSolidRgb => {
            assert(all[21] is Mv7LedSolidColor);
            21
        },
        Setting::LedPulsingRgb => {
            assert(all[22] is Mv7LedPulsingColor);
            22
        },
        Setting::LedLiveEdgeRgb => {
            assert(all[23] is Mv7LedLiveEdge);
            23
        },
        Setting::LedLiveMiddleRgb => {
            assert(all[24] is Mv7LedLiveMiddle);
            24
        },
        Setting::LedLiveInteriorRgb => {
            assert(all[25] is Mv7LedLiveInterior);
            25
        },
        _ => 0,
    }
}

/// Every band that a model can set or switch is among the commands for a
/// preset: at index `k`.
pub proof fn preset_commands_cover_bands(
    s: Settings,
    model: DeviceModel,
    band: int,
    is_enable: bool,
) -> (k: int)
    requires
        1 <= band <= 5,
        catalog::support(model, catalog::band_name(band, is_enable)) is Ok,
    ensures
        0 <= k < preset_commands(s, model).len(),
        command_name(preset_commands(s, model)[k]) == Some(catalog::band_name(band, is_enable)),
{
    catalog::band_support(model, band, is_enable);
    catalog::group_members(ModelGroup::Gen1, model);
    catalog::group_members(ModelGroup::Equalizing, model);
    if model == DeviceModel::Mvx2u {
        let k = 12 + 2 * (band - 1) + if is_enable {
            0int
        } else {
            1int
        };
        assert(preset_commands(s, model)[k] == band_commands(s)[k - 12]);
        k
    } else {
        let k = 12 + band - 1;
        assert(preset_commands(s, model)[k] == band_gain_commands(s)[k - 12]);
        k
    }
}

} // verus!
