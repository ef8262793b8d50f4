//! The terminal interface: what it shows and what a key press does.

use vstd::prelude::*;

use crate::error::PRESET_COUNT;
use crate::presets::{PresetSlot, SlotView, StateView};
use crate::protocol::{
    AutoGain, AutoTone, CompressorPreset, DeviceModel, DeviceState, HpfFrequency, InputMode,
    LedBehavior, LedBrightness, LedLiveTheme, LedPulsingTheme, LedSolidTheme, MicPosition,
    ReverbType,
};

verus! {

/// A page of the interface.
#[derive(Clone, Copy, PartialEq, Eq, Structural, Debug)]
pub enum Tab {
    Eq,
    Presets,
    /// A page on which no key has a meaning of its own.
    Other,
}

/// The control that keys act on.
#[derive(Clone, Copy, PartialEq, Eq, Structural, Debug)]
pub enum Focus {
    /// The name of the preset at this index.
    PresetName(usize),
    /// The actions on the preset at this index.
    PresetActions(usize),
    FactoryReset,
    /// A control that changes a setting.
    Other,
}

/// The line that tells the user what happened.
pub struct Status {
    pub ok: bool,
    pub text: String,
}

/// A change that the user asks for. Presets are given by their index.
#[derive(Clone, Copy, Debug)]
pub enum DeviceAction {
    Refresh,
    SetGain(u8),
    SetMode(InputMode),
    SetAutoPosition(MicPosition),
    SetAutoTone(AutoTone),
    SetAutoGain(AutoGain),
    SetMute(bool),
    SetPhantom(bool),
    SetLock(bool),
    SetMonitorMix(u8),
    SetLimiter(bool),
    SetCompressor(CompressorPreset),
    SetHpf(HpfFrequency),
    SetEqEnable(bool),
    SetMv6Denoiser(bool),
    SetMv6PopperStopper(bool),
    SetMv6MuteBtnDisable(bool),
    SetMv6Tone(i8),
    SetMv6GainLock(bool),
    SetMv6MonitorMix(u8),
    SetMv7PlaybackMix(u8),
    SetMv7ReverbOutput(bool),
    SetMv7ReverbMonitor(bool),
    SetMv7ReverbPreset(ReverbType),
    SetMv7ReverbIntensity(u8),
    SetMv7LedBehavior(LedBehavior),
    SetMv7LedBrightness(LedBrightness),
    SetMv7LedLiveTheme(LedLiveTheme),
    SetMv7LedSolidTheme(LedSolidTheme),
    SetMv7LedPulsingTheme(LedPulsingTheme),
    SetMv7LedSolidRgb([u8; 3]),
    SetMv7LedPulsingRgb([u8; 3]),
    SetMv7LedLiveEdgeRgb([u8; 3]),
    SetMv7LedLiveMiddleRgb([u8; 3]),
    SetMv7LedLiveInteriorRgb([u8; 3]),
    SetEqBandEnable(usize, bool),
    SetEqBandGain(usize, i16),
    FlattenEq,
    SavePreset(usize),
    LoadPreset(usize),
    DeletePreset(usize),
    PersistPresetName(usize),
    FactoryReset,
}

/// The state of the interface.
pub struct App {
    pub demo_mode: bool,
    pub device_model: DeviceModel,
    pub device_state: DeviceState,
    pub presets: Vec<Option<PresetSlot>>,
    pub should_quit: bool,
    pub editing_preset_name: bool,
    pub editing_preset_index: usize,
    pub confirming_factory_reset: bool,
    pub help_visible: bool,
    pub active_tab: Tab,
    pub focus: Focus,
    pub status: Status,
}

/// What the status line says.
#[verifier::ext_equal]
pub struct StatusView {
    pub ok: bool,
    pub text: Seq<char>,
}

/// What the state of the interface says.
#[verifier::ext_equal]
pub struct AppView {
    pub demo_mode: bool,
    pub device_model: DeviceModel,
    pub device_state: StateView,
    pub presets: Seq<Option<SlotView>>,
    pub should_quit: bool,
    pub editing_preset_name: bool,
    pub editing_preset_index: usize,
    pub confirming_factory_reset: bool,
    pub help_visible: bool,
    pub active_tab: Tab,
    pub focus: Focus,
    pub status: StatusView,
}

/// What a slot holds.
pub open spec fn slot_view(slot: Option<PresetSlot>) -> Option<SlotView> {
    match slot {
        Some(slot) => Some(slot@),
        None => None,
    }
}

impl View for App {
    type V = AppView;

    open spec fn view(&self) -> AppView {
        AppView {
            demo_mode: self.demo_mode,
            device_model: self.device_model,
            device_state: self.device_state@,
            presets: self.presets@.map_values(|slot: Option<PresetSlot>| slot_view(slot)),
            should_quit: self.should_quit,
            editing_preset_name: self.editing_preset_name,
            editing_preset_index: self.editing_preset_index,
            confirming_factory_reset: self.confirming_factory_reset,
            help_visible: self.help_visible,
            active_tab: self.active_tab,
            focus: self.focus,
            status: StatusView { ok: self.status.ok, text: self.status.text@ },
        }
    }
}

impl AppView {
    /// Whether every preset that the interface points at exists.
    pub open spec fn wf(self) -> bool {
        &&& self.presets.len() == PRESET_COUNT
        &&& self.editing_preset_index < PRESET_COUNT
        &&& match self.focus {
            Focus::PresetName(i) | Focus::PresetActions(i) => i < PRESET_COUNT,
            _ => true,
        }
    }

    /// The state with a message of success.
    pub open spec fn told(self, text: Seq<char>) -> AppView {
        AppView { status: StatusView { ok: true, text }, ..self }
    }

    /// The state with a message of failure.
    pub open spec fn warned(self, text: Seq<char>) -> AppView {
        AppView { status: StatusView { ok: false, text }, ..self }
    }
}

impl App {
    /// Tells the user that something was done.
    pub fn set_ok(&mut self, text: String)
        ensures
            final(self)@ == old(self)@.told(text@),
    {
        self.status = Status { ok: true, text };
    }

    /// Tells the user that something went wrong.
    pub fn set_err(&mut self, text: String)
        ensures
            final(self)@ == old(self)@.warned(text@),
    {
        self.status = Status { ok: false, text };
    }
}

/// A key.
#[derive(Clone, Copy, PartialEq, Eq, Structural, Debug)]
pub enum Key {
    Char(char),
    Enter,
    Esc,
    Backspace,
    Delete,
    Tab,
    Up,
    Down,
    Left,
    Right,
    /// A key without a meaning.
    Other,
}

/// The keys that are held down beside a key.
#[derive(Clone, Copy, PartialEq, Eq, Structural, Debug)]
pub struct Modifiers {
    pub control: bool,
    pub shift: bool,
}

/// What a key press asks for.
#[derive(Clone, Copy, Debug)]
pub enum KeyOutcome {
    Nothing,
    Act(DeviceAction),
    NextTab,
    PrevTab,
    FocusNext,
    FocusPrev,
    /// Move the value of the focused control down (-1) or up (1).
    Adjust(i8),
    /// Switch the focused control.
    Toggle,
}

/// Whether an action speaks of a preset that exists, and of a band whose number
/// can be shown.
pub open spec fn action_wf(action: DeviceAction) -> bool {
    match action {
        DeviceAction::SavePreset(i) | DeviceAction::LoadPreset(i) | DeviceAction::DeletePreset(i)
        | DeviceAction::PersistPresetName(i) => i < PRESET_COUNT,
        DeviceAction::SetEqBandEnable(band, _) | DeviceAction::SetEqBandGain(band, _) => band
            < usize::MAX,
        _ => true,
    }
}

/// The name of a preset after a key press in its field. It takes characters
/// only while it is shorter than forty bytes.
pub open spec fn edited_name(name: Seq<char>, key: Key, mods: Modifiers) -> Seq<char> {
    match key {
        Key::Backspace => if name.len() > 0 {
            name.drop_last()
        } else {
            name
        },
        Key::Char(c) => if !mods.control && vstd::utf8::encode_utf8(name).len() < 40 {
            name.push(c)
        } else {
            name
        },
        _ => name,
    }
}

/// A key press while the name of a preset is edited.
pub open spec fn editing_step(app: AppView, key: Key, mods: Modifiers) -> (AppView, KeyOutcome) {
    let i = app.editing_preset_index;
    if key == Key::Enter || key == Key::Esc {
        (
            AppView { editing_preset_name: false, ..app },
            if app.presets[i as int] is Some {
                KeyOutcome::Act(DeviceAction::PersistPresetName(i))
            } else {
                KeyOutcome::Nothing
            },
        )
    } else {
        match app.presets[i as int] {
            Some(slot) => (
                AppView {
                    presets: app.presets.update(
                        i as int,
                        Some(SlotView { name: edited_name(slot.name, key, mods), ..slot }),
                    ),
                    ..app
                },
                KeyOutcome::Nothing,
            ),
            None => (app, KeyOutcome::Nothing),
        }
    }
}

/// The question before a factory reset.
pub open spec fn reset_question() -> Seq<char> {
    "! This will erase all device settings. Press Enter to confirm, any other key to cancel."@
}

/// A key press on an ordinary page.
pub open spec fn page_step(app: AppView, key: Key, mods: Modifiers) -> (AppView, KeyOutcome) {
    match key {
        Key::Char('?') => (AppView { help_visible: true, ..app }, KeyOutcome::Nothing),
        Key::Char('r') => (app, KeyOutcome::Act(DeviceAction::Refresh)),
        Key::Tab => (
            app,
            if mods.shift {
                KeyOutcome::PrevTab
            } else {
                KeyOutcome::NextTab
            },
        ),
        Key::Up | Key::Char('k') => (app, KeyOutcome::FocusPrev),
        Key::Down | Key::Char('j') => (app, KeyOutcome::FocusNext),
        Key::Left | Key::Char('h') => (app, KeyOutcome::Adjust((-1) as i8)),
        Key::Right | Key::Char('l') => (app, KeyOutcome::Adjust(1)),
        Key::Enter | Key::Char(' ') => match app.focus {
            Focus::PresetName(i) => if app.presets[i as int] is Some {
                (
                    AppView { editing_preset_name: true, editing_preset_index: i, ..app },
                    KeyOutcome::Nothing,
                )
            } else {
                (app, KeyOutcome::Toggle)
            },
            Focus::FactoryReset => (
                AppView { confirming_factory_reset: true, ..app }.warned(reset_question()),
                KeyOutcome::Nothing,
            ),
            _ => (app, KeyOutcome::Toggle),
        },
        Key::Char('s') => (
            app,
            match app.focus {
                Focus::PresetName(i) | Focus::PresetActions(i) => if app.active_tab
                    == Tab::Presets {
                    KeyOutcome::Act(DeviceAction::SavePreset(i))
                } else {
                    KeyOutcome::Nothing
                },
                _ => KeyOutcome::Nothing,
            },
        ),
        Key::Char('f') => (
            app,
            if app.active_tab == Tab::Eq {
                KeyOutcome::Act(DeviceAction::FlattenEq)
            } else {
                KeyOutcome::Nothing
            },
        ),
        Key::Char('d') | Key::Delete => (
            app,
            match app.focus {
                Focus::PresetActions(i) => if app.active_tab == Tab::Presets
                    && app.presets[i as int] is Some {
                    KeyOutcome::Act(DeviceAction::DeletePreset(i))
                } else {
                    KeyOutcome::Nothing
                },
                _ => KeyOutcome::Nothing,
            },
        ),
        _ => (app, KeyOutcome::Nothing),
    }
}

/// Whether a key press asks to quit.
pub open spec fn quits(key: Key, mods: Modifiers) -> bool {
    key == Key::Char('q') || key == Key::Char('Q') || (key == Key::Char('c') && mods.control)
}

/// A key press: the state after it, and what it asks for.
pub open spec fn key_step(app: AppView, key: Key, mods: Modifiers) -> (AppView, KeyOutcome) {
    if quits(key, mods) {
        if app.editing_preset_name {
            (app, KeyOutcome::Nothing)
        } else {
            (AppView { should_quit: true, ..app }, KeyOutcome::Nothing)
        }
    } else if app.editing_preset_name {
        editing_step(app, key, mods)
    } else if app.confirming_factory_reset {
        let settled = AppView { confirming_factory_reset: false, ..app };
        if key == Key::Enter {
            (settled, KeyOutcome::Act(DeviceAction::FactoryReset))
        } else {
            (settled.told("Factory reset cancelled."@), KeyOutcome::Nothing)
        }
    } else if app.help_visible {
        if key == Key::Char('?') || key == Key::Esc {
            (AppView { help_visible: false, ..app }, KeyOutcome::Nothing)
        } else {
            (app, KeyOutcome::Nothing)
        }
    } else {
        page_step(app, key, mods)
    }
}

fn edit_name(app: &mut App, key: Key, mods: Modifiers) -> (outcome: KeyOutcome)
    requires
        old(app)@.wf(),
    ensures
        (final(app)@, outcome) == editing_step(old(app)@, key, mods),
{
    let i = app.editing_preset_index;
    match key {
        Key::Enter | Key::Esc => {
            app.editing_preset_name = false;
            if app.presets[i].is_some() {
                return KeyOutcome::Act(DeviceAction::PersistPresetName(i));
            }
        },
        _ => {
            match app.presets[i].take() {
                Some(slot) => {
                    let mut slot = slot;
                    match key {
                        Key::Backspace => {
                            let _ = slot.name.pop();
                        },
                        Key::Char(c) => {
                            if !mods.control && slot.name.as_str().as_bytes().len() < 40 {
                                slot.name.push(c);
                            }
                        },
                        _ => {},
                    }
                    app.presets[i] = Some(slot);
                },
                None => {},
            }
        },
    }
    KeyOutcome::Nothing
}

fn press_on_page(app: &mut App, key: Key, mods: Modifiers) -> (outcome: KeyOutcome)
    requires
        old(app)@.wf(),
    ensures
        (final(app)@, outcome) == page_step(old(app)@, key, mods),
{
    match key {
        Key::Char('?') => {
            app.help_visible = true;
            KeyOutcome::Nothing
        },
        Key::Char('r') => KeyOutcome::Act(DeviceAction::Refresh),
        Key::Tab => if mods.shift {
            KeyOutcome::PrevTab
        } else {
            KeyOutcome::NextTab
        },
        Key::Up | Key::Char('k') => KeyOutcome::FocusPrev,
        Key::Down | Key::Char('j') => KeyOutcome::FocusNext,
        Key::Left | Key::Char('h') => KeyOutcome::Adjust(-1),
        Key::Right | Key::Char('l') => KeyOutcome::Adjust(1),
        Key::Enter | Key::Char(' ') => {
            match app.focus {
                Focus::PresetName(i) => {
                    if app.presets[i].is_some() {
                        app.editing_preset_name = true;
                        app.editing_preset_index = i;
                        return KeyOutcome::Nothing;
                    }
                },
                Focus::FactoryReset => {
                    app.confirming_factory_reset = true;
                    app.set_err(
                        "! This will erase all device settings. Press Enter to confirm, any other key to cancel.".to_owned(),
                    );
                    return KeyOutcome::Nothing;
                },
                _ => {},
            }
            KeyOutcome::Toggle
        },
        Key::Char('s') => {
            if app.active_tab == Tab::Presets {
                match app.focus {
                    Focus::PresetName(i) | Focus::PresetActions(i) => {
                        return KeyOutcome::Act(DeviceAction::SavePreset(i));
                    },
                    _ => {},
                }
            }
            KeyOutcome::Nothing
        },
        Key::Char('f') => if app.active_tab == Tab::Eq {
            KeyOutcome::Act(DeviceAction::FlattenEq)
        } else {
            KeyOutcome::Nothing
        },
        Key::Char('d') | Key::Delete => {
            if app.active_tab == Tab::Presets {
                match app.focus {
                    Focus::PresetActions(i) => {
                        if app.presets[i].is_some() {
                            return KeyOutcome::Act(DeviceAction::DeletePreset(i));
                        }
                    },
                    _ => {},
                }
            }
            KeyOutcome::Nothing
        },
        _ => KeyOutcome::Nothing,
    }
}

/// Handles a key press.
pub fn handle_key(app: &mut App, key: Key, mods: Modifiers) -> (outcome: KeyOutcome)
    requires
        old(app)@.wf(),
    ensures
        (final(app)@, outcome) == key_step(old(app)@, key, mods),
        outcome matches KeyOutcome::Act(action) ==> action_wf(action),
        final(app)@.wf(),
{
    let quit = match key {
        Key::Char(c) => c == 'q' || c == 'Q' || (c == 'c' && mods.control),
        _ => false,
    };
    if quit {
        if !app.editing_preset_name {
            app.should_quit = true;
        }
        return KeyOutcome::Nothing;
    }
    if app.editing_preset_name {
        return edit_name(app, key, mods);
    }
    if app.confirming_factory_reset {
        app.confirming_factory_reset = false;
        if key == Key::Enter {
            return KeyOutcome::Act(DeviceAction::FactoryReset);
        }
        app.set_ok("Factory reset cancelled.".to_owned());
        return KeyOutcome::Nothing;
    }
    if app.help_visible {
        if key == Key::Char('?') || key == Key::Esc {
            app.help_visible = false;
        }
        return KeyOutcome::Nothing;
    }
    press_on_page(app, key, mods)
}

/// How long to wait for a key, so many nanoseconds after the tick began: until
/// the tick is over.
pub fn poll_timeout(tick_nanos: u64, elapsed_nanos: u64) -> (wait: u64)
    ensures
        wait == (if elapsed_nanos < tick_nanos {
            tick_nanos - elapsed_nanos
        } else {
            0
        }),
{
    if elapsed_nanos < tick_nanos {
        tick_nanos - elapsed_nanos
    } else {
        0
    }
}

/// Whether the tick is over, so many nanoseconds after it began.
pub fn tick_is_over(tick_nanos: u64, elapsed_nanos: u64) -> (over: bool)
    ensures
        over == (elapsed_nanos >= tick_nanos),
{
    elapsed_nanos >= tick_nanos
}

/// A factory reset is asked for only by Enter after the question.
pub proof fn reset_needs_confirmation(app: AppView, key: Key, mods: Modifiers)
    ensures
        key_step(app, key, mods).1 == KeyOutcome::Act(DeviceAction::FactoryReset)
            ==> app.confirming_factory_reset && key == Key::Enter,
{
}

/// Any key but Enter, and but those that quit, withdraws the question.
pub proof fn other_keys_cancel_the_reset(app: AppView, key: Key, mods: Modifiers)
    requires
        app.confirming_factory_reset,
        !app.editing_preset_name,
        !quits(key, mods),
        key != Key::Enter,
    ensures
        key_step(app, key, mods).1 == KeyOutcome::Nothing,
        !key_step(app, key, mods).0.confirming_factory_reset,
{
}

/// While a name is edited no key quits, and none does anything but edit.
pub proof fn editing_takes_all_keys(app: AppView, key: Key, mods: Modifiers)
    requires
        app.editing_preset_name,
    ensures
        key_step(app, key, mods).0.should_quit == app.should_quit,
        key_step(app, key, mods).0.device_state == app.device_state,
        key_step(app, key, mods).1 == KeyOutcome::Nothing || key_step(app, key, mods).1
            == KeyOutcome::Act(DeviceAction::PersistPresetName(app.editing_preset_index)),
{
}

/// While the help is shown, keys do nothing but close it or quit.
pub proof fn help_takes_all_keys(app: AppView, key: Key, mods: Modifiers)
    requires
        app.help_visible,
        !app.editing_preset_name,
        !app.confirming_factory_reset,
    ensures
        key_step(app, key, mods).1 == KeyOutcome::Nothing,
{
}

/// A key press alone never changes what the device is set to.
pub proof fn keys_do_not_change_settings(app: AppView, key: Key, mods: Modifiers)
    ensures
        key_step(app, key, mods).0.device_state == app.device_state,
{
}

/// Editing changes the name of one preset and nothing else of any.
pub proof fn editing_changes_one_name(app: AppView, key: Key, mods: Modifiers, k: int)
    requires
        app.wf(),
        0 <= k < PRESET_COUNT,
    ensures
        key_step(app, key, mods).0.presets[k] matches Some(slot) ==> app.presets[k] matches Some(
            before,
        ) && slot.settings == before.settings && (slot.name != before.name
            ==> app.editing_preset_name && k == app.editing_preset_index),
        app.presets[k] is Some ==> key_step(app, key, mods).0.presets[k] is Some,
{
}

proof fn lemma_encode_push(name: Seq<char>, c: char)
    ensures
        vstd::utf8::encode_utf8(name.push(c)).len() == vstd::utf8::encode_utf8(name).len()
            + vstd::utf8::encode_scalar(c as u32).len(),
    decreases name.len(),
{
    if name.len() > 0 {
        assert(name.push(c).drop_first() =~= name.drop_first().push(c));
        lemma_encode_push(name.drop_first(), c);
    } else {
        assert(name.push(c).drop_first() =~= name);
    }
}

proof fn lemma_encode_drop_last(name: Seq<char>)
    requires
        name.len() > 0,
    ensures
        vstd::utf8::encode_utf8(name.drop_last()).len() <= vstd::utf8::encode_utf8(name).len(),
{
    assert(name.drop_last().push(name.last()) =~= name);
    lemma_encode_push(name.drop_last(), name.last());
}

/// A name never grows beyond 43 bytes by editing.
pub proof fn names_stay_short(name: Seq<char>, key: Key, mods: Modifiers)
    requires
        vstd::utf8::encode_utf8(name).len() <= 43,
    ensures
        vstd::utf8::encode_utf8(edited_name(name, key, mods)).len() <= 43,
{
    match key {
        Key::Backspace => {
            if name.len() > 0 {
                lemma_encode_drop_last(name);
            }
        },
        Key::Char(c) => {
            lemma_encode_push(name, c);
        },
        _ => {},
    }
}

/// `q`, `Q` and Ctrl+C quit from everywhere but the field of a name, where they
/// do nothing at all. No other key quits.
pub proof fn quitting_works_everywhere_but_in_a_name(app: AppView, key: Key, mods: Modifiers)
    ensures
        ({
            let asks = key == Key::Char('q') || key == Key::Char('Q') || (key == Key::Char('c')
                && mods.control);
            let (after, outcome) = key_step(app, key, mods);
            if asks {
                outcome == KeyOutcome::Nothing && after == (AppView {
                    should_quit: app.should_quit || !app.editing_preset_name,
                    ..app
                })
            } else {
                after.should_quit == app.should_quit
            }
        }),
{
}

/// Whether keys act on the page: no name is edited, no question is asked and no
/// help is shown.
pub open spec fn on_page(app: AppView) -> bool {
    !app.editing_preset_name && !app.confirming_factory_reset && !app.help_visible
}

/// A preset is saved by `s` on the page of presets, with the focus on that preset,
/// and by nothing else.
pub proof fn saving_is_asked_for_by_s(app: AppView, key: Key, mods: Modifiers, i: usize)
    ensures
        key_step(app, key, mods).1 == KeyOutcome::Act(DeviceAction::SavePreset(i)) <==> on_page(app)
            && key == Key::Char('s') && app.active_tab == Tab::Presets && (app.focus
            == Focus::PresetName(i) || app.focus == Focus::PresetActions(i)),
{
}

/// A preset is deleted by `d` or Delete on the page of presets, with the focus on
/// the actions of that preset, where there is one; and by nothing else.
pub proof fn deleting_needs_a_preset(app: AppView, key: Key, mods: Modifiers, i: usize)
    ensures
        key_step(app, key, mods).1 == KeyOutcome::Act(DeviceAction::DeletePreset(i)) <==> on_page(
            app,
        ) && (key == Key::Char('d') || key == Key::Delete) && app.active_tab == Tab::Presets
            && app.focus == Focus::PresetActions(i) && app.presets[i as int] is Some,
{
}

/// A name is stored when its field is left by Enter or Esc, and only then.
pub proof fn names_are_stored_on_leaving(app: AppView, key: Key, mods: Modifiers, i: usize)
    ensures
        key_step(app, key, mods).1 == KeyOutcome::Act(DeviceAction::PersistPresetName(i))
            <==> app.editing_preset_name && (key == Key::Enter || key == Key::Esc)
            && app.editing_preset_index == i && app.presets[i as int] is Some,
        app.editing_preset_name && (key == Key::Enter || key == Key::Esc) ==> !key_step(
            app,
            key,
            mods,
        ).0.editing_preset_name,
{
}

/// On a page, `r` asks for a refresh, and `f` on the page of the equalizer for a
/// flat one; nothing else does.
pub proof fn refreshing_and_flattening(app: AppView, key: Key, mods: Modifiers)
    ensures
        key_step(app, key, mods).1 == KeyOutcome::Act(DeviceAction::Refresh) <==> on_page(app)
            && key == Key::Char('r'),
        key_step(app, key, mods).1 == KeyOutcome::Act(DeviceAction::FlattenEq) <==> on_page(app)
            && key == Key::Char('f') && app.active_tab == Tab::Eq,
        key_step(app, key, mods).1 == KeyOutcome::Act(DeviceAction::FactoryReset)
            <==> !app.editing_preset_name && app.confirming_factory_reset && key == Key::Enter,
{
}

/// Keys by themselves ask for nothing but a refresh, a flat equalizer, a factory
/// reset, and to save, delete or rename a preset.
pub proof fn keys_ask_for_few_actions(app: AppView, key: Key, mods: Modifiers)
    ensures
        key_step(app, key, mods).1 matches KeyOutcome::Act(action) ==> match action {
            DeviceAction::Refresh | DeviceAction::FlattenEq | DeviceAction::FactoryReset
            | DeviceAction::SavePreset(_) | DeviceAction::DeletePreset(_)
            | DeviceAction::PersistPresetName(_) => true,
            _ => false,
        },
{
}

/// On a page, Tab turns pages, arrows and their letters move the focus and the
/// value, and Enter or space switches, edits a name or asks about a reset.
pub proof fn keys_on_a_page(app: AppView, key: Key, mods: Modifiers)
    requires
        on_page(app),
        !quits(key, mods),
    ensures
        ({
            let (after, outcome) = key_step(app, key, mods);
            let enter = key == Key::Enter || key == Key::Char(' ');
            &&& outcome == KeyOutcome::NextTab <==> key == Key::Tab && !mods.shift
            &&& outcome == KeyOutcome::PrevTab <==> key == Key::Tab && mods.shift
            &&& outcome == KeyOutcome::FocusPrev <==> key == Key::Up || key == Key::Char('k')
            &&& outcome == KeyOutcome::FocusNext <==> key == Key::Down || key == Key::Char('j')
            &&& outcome == KeyOutcome::Adjust((-1) as i8) <==> key == Key::Left || key
                == Key::Char('h')
            &&& outcome == KeyOutcome::Adjust(1) <==> key == Key::Right || key == Key::Char('l')
            &&& after.help_visible <==> key == Key::Char('?')
            &&& after.confirming_factory_reset <==> enter && app.focus == Focus::FactoryReset
            &&& after.editing_preset_name <==> enter && (app.focus matches Focus::PresetName(i)
                && app.presets[i as int] is Some)
            &&& after.editing_preset_name ==> app.focus == Focus::PresetName(
                after.editing_preset_index,
            )
            &&& outcome == KeyOutcome::Toggle <==> enter && !after.confirming_factory_reset
                && !after.editing_preset_name
            &&& after.presets == app.presets && after.focus == app.focus && after.active_tab
                == app.active_tab
        }),
{
}

/// Help closes with `?` or Esc and with no other key.
pub proof fn help_closes(app: AppView, key: Key, mods: Modifiers)
    requires
        app.help_visible,
        !app.editing_preset_name,
        !app.confirming_factory_reset,
    ensures
        key_step(app, key, mods).0.help_visible <==> !(key == Key::Char('?') || key == Key::Esc),
{
}

/// A name that has room takes a character at its end, and Backspace takes it off
/// again. Other keys leave the name.
pub proof fn typing_is_undone_by_backspace(name: Seq<char>, c: char, mods: Modifiers, key: Key)
    requires
        vstd::utf8::encode_utf8(name).len() < 40,
        !mods.control,
    ensures
        edited_name(name, Key::Char(c), mods).len() == name.len() + 1,
        edited_name(name, Key::Char(c), mods).last() == c,
        edited_name(edited_name(name, Key::Char(c), mods), Key::Backspace, mods) == name,
        !(key is Char) && key != Key::Backspace ==> edited_name(name, key, mods) == name,
{
    assert(name.push(c).drop_last() =~= name);
}

/// A name of forty bytes or more takes no more, and no name takes a character
/// while Ctrl is held.
pub proof fn full_names_take_no_more(name: Seq<char>, c: char, mods: Modifiers)
    requires
        vstd::utf8::encode_utf8(name).len() >= 40 || mods.control,
    ensures
        edited_name(name, Key::Char(c), mods) == name,
{
}

/// A key in the field of a name acts on that name as `edited_name` says.
pub proof fn keys_edit_the_name(app: AppView, key: Key, mods: Modifiers)
    requires
        app.wf(),
        app.editing_preset_name,
        !quits(key, mods),
        app.presets[app.editing_preset_index as int] is Some,
    ensures
        ({
            let i = app.editing_preset_index as int;
            key_step(app, key, mods).0.presets[i] matches Some(slot) && slot.name == edited_name(
                app.presets[i]->0.name,
                key,
                mods,
            )
        }),
{
}

} // verus!
