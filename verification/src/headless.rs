//! Commands that run without a terminal interface.
//!
//! A command goes from step to step. Each step asks for one piece of outside
//! work: to open the device, to read its state, to send it commands, or to
//! look after the stored presets. What the work brought is handed to the
//! function that gives the next step: `opened`, `state_read`, `sent` or
//! `found`. Work that fails ends the command with its own message.

use vstd::prelude::*;

use crate::app;
use crate::catalog::Setting;
use crate::effect;
use crate::effect::{Field, Meaning};
use crate::error::{Fault, SettingError};
use crate::presets;
use crate::presets::{PresetSlot, SlotView, StateView};
use crate::protocol::{DeviceCommand, DeviceModel, DeviceState};
use crate::settings;
use crate::text;
use crate::value;

verus! {

/// A command.
pub enum Command {
    /// Report what the device is set to.
    Get,
    /// Change one setting and report what the device is set to.
    Change { setting: String, value: Option<String> },
    /// Look after the presets.
    Preset { action: PresetCommand },
}

/// What to do with the presets. Slots are counted from one.
pub enum PresetCommand {
    List,
    Save { slot: usize },
    Load { slot: usize },
    Delete { slot: usize },
}

/// Which device to open.
pub enum OpenTarget {
    /// The one at this path.
    Path(String),
    /// The only one that is connected.
    Detected,
}

/// What follows once the device is open.
pub enum AfterOpen {
    Get,
    Change { setting: String, value: String },
    Save { slot: usize },
    Load { slot: usize },
}

/// What follows once the state has been read.
pub enum AfterRead {
    /// Report it.
    Report { model: DeviceModel, note: Option<Note> },
    /// Look up the name of the preset that it is to be saved to.
    Save { slot: usize, index: usize },
    /// Put the settings of a preset into it.
    Load { model: DeviceModel, slot: usize, data: PresetSlot },
}

/// What follows once the commands have been sent.
pub enum AfterSend {
    Change { model: DeviceModel, setting: String, value: String },
    Load { model: DeviceModel, slot: usize, name: String },
}

/// What follows once a preset has been looked up.
pub enum AfterFind {
    Save { slot: usize, index: usize, state: DeviceState },
    Load { model: DeviceModel, slot: usize },
}

/// What a report adds to the state.
pub enum Note {
    /// The setting that was changed, and the value that was asked for.
    Applied { setting: String, value: String },
    /// The preset that was loaded.
    Loaded { slot: usize, name: String },
}

/// What a command answers.
pub enum Reply {
    Help,
    /// The state; `body` holds its settings as a preset does, without a name.
    State { model: DeviceModel, state: DeviceState, body: PresetSlot, note: Option<Note> },
    Presets { all: Vec<Option<PresetSlot>> },
    Saved { slot: usize, data: PresetSlot },
    Deleted { slot: usize },
}

/// The next step of a command.
#[allow(inconsistent_fields)]
pub enum Step {
    /// Open the device, then go on with `opened`.
    Open { next: AfterOpen },
    /// Read the state, then go on with `state_read`.
    Read { next: AfterRead },
    /// Send the commands in order, then go on with `sent`.
    Send { commands: Vec<DeviceCommand>, next: AfterSend },
    /// Look up the preset at this index, then go on with `found`.
    Find { index: usize, next: AfterFind },
    /// Look up all presets, then answer with `preset_list`.
    List,
    /// Store the preset at this index, then answer with `stored`.
    Store { index: usize, slot: usize, data: PresetSlot },
    /// Delete the preset at this index, then answer with `removed`.
    Remove { index: usize, slot: usize },
    /// Answer.
    Done { reply: Reply },
    /// Refuse the command.
    Refuse { error: SettingError },
}

/// What `AfterOpen` says.
pub enum AfterOpenView {
    Get,
    Change { setting: Seq<char>, value: Seq<char> },
    Save { slot: usize },
    Load { slot: usize },
}

/// What `AfterRead` says.
pub enum AfterReadView {
    Report { model: DeviceModel, note: Option<NoteView> },
    Save { slot: usize, index: usize },
    Load { model: DeviceModel, slot: usize, data: SlotView },
}

/// What `AfterSend` says.
pub enum AfterSendView {
    Change { model: DeviceModel, setting: Seq<char>, value: Seq<char> },
    Load { model: DeviceModel, slot: usize, name: Seq<char> },
}

/// What `AfterFind` says.
pub enum AfterFindView {
    Save { slot: usize, index: usize, state: StateView },
    Load { model: DeviceModel, slot: usize },
}

/// What `Note` says.
pub enum NoteView {
    Applied { setting: Seq<char>, value: Seq<char> },
    Loaded { slot: usize, name: Seq<char> },
}

/// What `Reply` says.
pub enum ReplyView {
    Help,
    State { model: DeviceModel, state: StateView, body: SlotView, note: Option<NoteView> },
    Presets { all: Seq<Option<SlotView>> },
    Saved { slot: usize, data: SlotView },
    Deleted { slot: usize },
}

/// What `Step` says.
#[allow(inconsistent_fields)]
pub enum StepView {
    Open { next: AfterOpenView },
    Read { next: AfterReadView },
    Send { commands: Seq<DeviceCommand>, next: AfterSendView },
    Find { index: usize, next: AfterFindView },
    List,
    Store { index: usize, slot: usize, data: SlotView },
    Remove { index: usize, slot: usize },
    Done { reply: ReplyView },
    Refuse { fault: Fault },
}

impl View for AfterOpen {
    type V = AfterOpenView;

    open spec fn view(&self) -> AfterOpenView {
        match *self {
            AfterOpen::Get => AfterOpenView::Get,
            AfterOpen::Change { setting, value } => AfterOpenView::Change {
                setting: setting@,
                value: value@,
            },
            AfterOpen::Save { slot } => AfterOpenView::Save { slot },
            AfterOpen::Load { slot } => AfterOpenView::Load { slot },
        }
    }
}

/// What a note says, where there is one.
pub open spec fn note_view(note: Option<Note>) -> Option<NoteView> {
    match note {
        Some(Note::Applied { setting, value }) => Some(
            NoteView::Applied { setting: setting@, value: value@ },
        ),
        Some(Note::Loaded { slot, name }) => Some(NoteView::Loaded { slot, name: name@ }),
        None => None,
    }
}

impl View for AfterRead {
    type V = AfterReadView;

    open spec fn view(&self) -> AfterReadView {
        match *self {
            AfterRead::Report { model, note } => AfterReadView::Report {
                model,
                note: note_view(note),
            },
            AfterRead::Save { slot, index } => AfterReadView::Save { slot, index },
            AfterRead::Load { model, slot, data } => AfterReadView::Load { model, slot, data: data@ },
        }
    }
}

impl View for AfterSend {
    type V = AfterSendView;

    open spec fn view(&self) -> AfterSendView {
        match *self {
            AfterSend::Change { model, setting, value } => AfterSendView::Change {
                model,
                setting: setting@,
                value: value@,
            },
            AfterSend::Load { model, slot, name } => AfterSendView::Load {
                model,
                slot,
                name: name@,
            },
        }
    }
}

impl View for AfterFind {
    type V = AfterFindView;

    open spec fn view(&self) -> AfterFindView {
        match *self {
            AfterFind::Save { slot, index, state } => AfterFindView::Save {
                slot,
                index,
                state: state@,
            },
            AfterFind::Load { model, slot } => AfterFindView::Load { model, slot },
        }
    }
}

impl View for Reply {
    type V = ReplyView;

    open spec fn view(&self) -> ReplyView {
        match *self {
            Reply::Help => ReplyView::Help,
            Reply::State { model, state, body, note } => ReplyView::State {
                model,
                state: state@,
                body: body@,
                note: note_view(note),
            },
            Reply::Presets { all } => ReplyView::Presets {
                all: all@.map_values(|slot: Option<PresetSlot>| app::slot_view(slot)),
            },
            Reply::Saved { slot, data } => ReplyView::Saved { slot, data: data@ },
            Reply::Deleted { slot } => ReplyView::Deleted { slot },
        }
    }
}

impl View for Step {
    type V = StepView;

    open spec fn view(&self) -> StepView {
        match *self {
            Step::Open { next } => StepView::Open { next: next@ },
            Step::Read { next } => StepView::Read { next: next@ },
            Step::Send { commands, next } => StepView::Send { commands: commands@, next: next@ },
            Step::Find { index, next } => StepView::Find { index, next: next@ },
            Step::List => StepView::List,
            Step::Store { index, slot, data } => StepView::Store { index, slot, data: data@ },
            Step::Remove { index, slot } => StepView::Remove { index, slot },
            Step::Done { reply } => StepView::Done { reply: reply@ },
            Step::Refuse { error } => StepView::Refuse { fault: error@ },
        }
    }
}

/// The step once a device of a model is open.
pub open spec fn step_after_open(next: AfterOpenView, model: DeviceModel) -> StepView {
    match next {
        AfterOpenView::Get => StepView::Read { next: AfterReadView::Report { model, note: None } },
        AfterOpenView::Change { setting, value } => match settings::requested(
            model,
            setting,
            value,
        ) {
            Ok(command) => StepView::Send {
                commands: seq![command],
                next: AfterSendView::Change { model, setting, value },
            },
            Err(fault) => StepView::Refuse { fault },
        },
        AfterOpenView::Save { slot } => match value::index_of_slot(slot as int) {
            Ok(index) => StepView::Read { next: AfterReadView::Save { slot, index } },
            Err(fault) => StepView::Refuse { fault },
        },
        AfterOpenView::Load { slot } => match value::index_of_slot(slot as int) {
            Ok(index) => StepView::Find { index, next: AfterFindView::Load { model, slot } },
            Err(fault) => StepView::Refuse { fault },
        },
    }
}

/// The step once a state has been read.
pub open spec fn step_after_read(next: AfterReadView, state: StateView) -> StepView {
    match next {
        AfterReadView::Report { model, note } => StepView::Done {
            reply: ReplyView::State {
                model,
                state,
                body: presets::snapshot(Seq::empty(), state),
                note,
            },
        },
        AfterReadView::Save { slot, index } => StepView::Find {
            index,
            next: AfterFindView::Save { slot, index, state },
        },
        AfterReadView::Load { model, slot, data } => StepView::Send {
            commands: presets::preset_commands(presets::restored(data, state).settings, model),
            next: AfterSendView::Load { model, slot, name: data.name },
        },
    }
}

/// The step once commands have been sent.
pub open spec fn step_after_send(next: AfterSendView) -> StepView {
    match next {
        AfterSendView::Change { model, setting, value } => StepView::Read {
            next: AfterReadView::Report {
                model,
                note: Some(NoteView::Applied { setting: value::normalized(setting), value }),
            },
        },
        AfterSendView::Load { model, slot, name } => StepView::Read {
            next: AfterReadView::Report { model, note: Some(NoteView::Loaded { slot, name }) },
        },
    }
}

/// The step once a preset has been looked up.
pub open spec fn step_after_find(next: AfterFindView, previous: Option<SlotView>) -> StepView {
    match next {
        AfterFindView::Save { slot, index, state } => StepView::Store {
            index,
            slot,
            data: presets::snapshot(
                match previous {
                    Some(previous) => previous.name,
                    None => presets::default_name(slot as int),
                },
                state,
            ),
        },
        AfterFindView::Load { model, slot } => match previous {
            Some(data) => StepView::Read { next: AfterReadView::Load { model, slot, data } },
            None => StepView::Refuse { fault: Fault::EmptySlot { slot: slot as int } },
        },
    }
}

/// Chooses the device to open.
pub fn open(device_path: Option<String>) -> (target: OpenTarget)
    ensures
        target == (match device_path {
            Some(path) => OpenTarget::Path(path),
            None => OpenTarget::Detected,
        }),
{
    match device_path {
        Some(path) => OpenTarget::Path(path),
        None => OpenTarget::Detected,
    }
}

/// The state that was read, under the serial number of the device.
pub fn read_state(state: DeviceState, serial_number: String) -> (full: DeviceState)
    ensures
        full@.settings == state@.settings,
        full@.serial_number == serial_number@,
        full == (DeviceState { serial_number, ..state }),
{
    DeviceState { serial_number, settings: state.settings }
}

/// The step by which a change of a setting starts.
pub open spec fn set_step(setting: String, value: Option<String>) -> Step {
    if text::lowered(setting@) == "help"@ {
        Step::Done { reply: Reply::Help }
    } else {
        match value {
            Some(value) => Step::Open { next: AfterOpen::Change { setting, value } },
            None => Step::Refuse { error: SettingError::MissingValue { setting } },
        }
    }
}

/// Starts a change of a setting, or the help on settings.
pub fn set_command(setting: String, value: Option<String>) -> (step: Step)
    ensures
        step == set_step(setting, value),
{
    let word = text::text_of(&text::to_lower(&text::chars_of(setting.as_str())));
    if text::same_text(word.as_str(), "help") {
        return Step::Done { reply: Reply::Help };
    }
    match value {
        Some(value) => Step::Open { next: AfterOpen::Change { setting, value } },
        None => Step::Refuse { error: SettingError::MissingValue { setting } },
    }
}

/// Starts to delete a preset.
pub fn preset_delete(slot: usize) -> (step: Step)
    ensures
        match value::index_of_slot(slot as int) {
            Ok(index) => step == (Step::Remove { index, slot }),
            Err(fault) => step matches Step::Refuse { error } && error@ == fault,
        },
{
    match value::slot_index(slot) {
        Ok(index) => Step::Remove { index, slot },
        Err(error) => Step::Refuse { error },
    }
}

/// Starts a command.
pub fn dispatch(command: Command) -> (step: Step)
    ensures
        match command {
            Command::Get => step == (Step::Open { next: AfterOpen::Get }),
            Command::Change { setting, value } => step == set_step(setting, value),
            Command::Preset { action: PresetCommand::List } => step == Step::List,
            Command::Preset { action: PresetCommand::Save { slot } } => step == (Step::Open {
                next: AfterOpen::Save { slot },
            }),
            Command::Preset { action: PresetCommand::Load { slot } } => step == (Step::Open {
                next: AfterOpen::Load { slot },
            }),
            Command::Preset { action: PresetCommand::Delete { slot } } => match value::index_of_slot(
                slot as int,
            ) {
                Ok(index) => step == (Step::Remove { index, slot }),
                Err(fault) => step matches Step::Refuse { error } && error@ == fault,
            },
        },
{
    match command {
        Command::Get => Step::Open { next: AfterOpen::Get },
        Command::Change { setting, value } => set_command(setting, value),
        Command::Preset { action } => match action {
            PresetCommand::List => Step::List,
            PresetCommand::Save { slot } => Step::Open { next: AfterOpen::Save { slot } },
            PresetCommand::Load { slot } => Step::Open { next: AfterOpen::Load { slot } },
            PresetCommand::Delete { slot } => preset_delete(slot),
        },
    }
}

/// Goes on once a device of this model is open. A setting that the device
/// cannot take, and a slot that does not exist, are refused before anything is
/// sent.
pub fn opened(next: AfterOpen, model: DeviceModel) -> (step: Step)
    ensures
        step@ == step_after_open(next@, model),
        match next {
            AfterOpen::Get => step == (Step::Read {
                next: AfterRead::Report { model, note: None },
            }),
            AfterOpen::Change { setting, value } => match settings::requested(
                model,
                setting@,
                value@,
            ) {
                Ok(command) => step matches Step::Send { commands, next } && commands@
                    == seq![command] && next == (AfterSend::Change { model, setting, value }),
                Err(fault) => step matches Step::Refuse { error } && error@ == fault,
            },
            AfterOpen::Save { slot } => match value::index_of_slot(slot as int) {
                Ok(index) => step == (Step::Read { next: AfterRead::Save { slot, index } }),
                Err(fault) => step matches Step::Refuse { error } && error@ == fault,
            },
            AfterOpen::Load { slot } => match value::index_of_slot(slot as int) {
                Ok(index) => step == (Step::Find { index, next: AfterFind::Load { model, slot } }),
                Err(fault) => step matches Step::Refuse { error } && error@ == fault,
            },
        },
{
    match next {
        AfterOpen::Get => Step::Read { next: AfterRead::Report { model, note: None } },
        AfterOpen::Change { setting, value } => {
            match settings::apply_setting(model, setting.as_str(), value.as_str()) {
                Ok(command) => {
                    let commands = vec![command];
                    proof {
                        assert(commands@ =~= seq![command]);
                    }
                    Step::Send { commands, next: AfterSend::Change { model, setting, value } }
                },
                Err(error) => Step::Refuse { error },
            }
        },
        AfterOpen::Save { slot } => match value::slot_index(slot) {
            Ok(index) => Step::Read { next: AfterRead::Save { slot, index } },
            Err(error) => Step::Refuse { error },
        },
        AfterOpen::Load { slot } => match value::slot_index(slot) {
            Ok(index) => Step::Find { index, next: AfterFind::Load { model, slot } },
            Err(error) => Step::Refuse { error },
        },
    }
}

/// Goes on once the state of the device has been read.
pub fn state_read(next: AfterRead, state: DeviceState) -> (step: Step)
    ensures
        step@ == step_after_read(next@, state@),
        match next {
            AfterRead::Report { model, note } => step matches Step::Done {
                reply: Reply::State { model: m, state: s, body, note: n },
            } && m == model && s == state && n == note && body@ == presets::snapshot(
                Seq::empty(),
                state@,
            ),
            AfterRead::Save { slot, index } => step == (Step::Find {
                index,
                next: AfterFind::Save { slot, index, state },
            }),
            AfterRead::Load { model, slot, data } => step matches Step::Send { commands, next }
                && commands@ == presets::preset_commands(
                presets::restored(data@, state@).settings,
                model,
            ) && next == (AfterSend::Load { model, slot, name: data.name }),
        },
{
    match next {
        AfterRead::Report { model, note } => {
            let body = PresetSlot::from_device_state(String::new(), &state);
            Step::Done { reply: Reply::State { model, state, body, note } }
        },
        AfterRead::Save { slot, index } => Step::Find {
            index,
            next: AfterFind::Save { slot, index, state },
        },
        AfterRead::Load { model, slot, data } => {
            let mut state = state;
            data.apply_to_device_state(&mut state);
            let commands = presets::apply_preset_to_device(&state, model);
            Step::Send { commands, next: AfterSend::Load { model, slot, name: data.name } }
        },
    }
}

/// Goes on once the commands have been sent: the state is read again and
/// reported, with what was changed.
pub fn sent(next: AfterSend) -> (step: Step)
    ensures
        step@ == step_after_send(next@),
        match next {
            AfterSend::Change { model, setting, value } => step matches Step::Read {
                next: AfterRead::Report { model: m, note: Some(Note::Applied { setting: s, value: v }) },
            } && m == model && s@ == value::normalized(setting@) && v == value,
            AfterSend::Load { model, slot, name } => step == (Step::Read {
                next: AfterRead::Report { model, note: Some(Note::Loaded { slot, name }) },
            }),
        },
{
    match next {
        AfterSend::Change { model, setting, value } => {
            let note = Note::Applied { setting: value::normalize(setting.as_str()), value };
            Step::Read { next: AfterRead::Report { model, note: Some(note) } }
        },
        AfterSend::Load { model, slot, name } => Step::Read {
            next: AfterRead::Report { model, note: Some(Note::Loaded { slot, name }) },
        },
    }
}

/// The name that a preset is saved under: the one that it has, or one after its
/// slot.
pub open spec fn saved_name(previous: Option<PresetSlot>, slot: int) -> Seq<char> {
    match previous {
        Some(previous) => previous.name@,
        None => presets::default_name(slot),
    }
}

/// Goes on once a preset has been looked up.
pub fn found(next: AfterFind, previous: Option<PresetSlot>) -> (step: Step)
    ensures
        step@ == step_after_find(next@, app::slot_view(previous)),
        match next {
            AfterFind::Save { slot, index, state } => step matches Step::Store {
                index: i,
                slot: n,
                data,
            } && i == index && n == slot && data@ == presets::snapshot(
                saved_name(previous, slot as int),
                state@,
            ),
            AfterFind::Load { model, slot } => match previous {
                Some(data) => step == (Step::Read { next: AfterRead::Load { model, slot, data } }),
                None => step == (Step::Refuse { error: SettingError::EmptySlot { slot } }),
            },
        },
{
    match next {
        AfterFind::Save { slot, index, state } => {
            let name = match previous {
                Some(previous) => previous.name,
                None => presets::default_preset_name(slot),
            };
            let data = PresetSlot::from_device_state(name, &state);
            Step::Store { index, slot, data }
        },
        AfterFind::Load { model, slot } => match previous {
            Some(data) => Step::Read { next: AfterRead::Load { model, slot, data } },
            None => Step::Refuse { error: SettingError::EmptySlot { slot } },
        },
    }
}

/// Answers with all presets.
pub fn preset_list(all: Vec<Option<PresetSlot>>) -> (reply: Reply)
    ensures
        reply == (Reply::Presets { all }),
{
    Reply::Presets { all }
}

/// Answers that a preset was stored.
pub fn stored(slot: usize, data: PresetSlot) -> (reply: Reply)
    ensures
        reply == (Reply::Saved { slot, data }),
{
    Reply::Saved { slot, data }
}

/// Answers that a preset was deleted.
pub fn removed(slot: usize) -> (reply: Reply)
    ensures
        reply == (Reply::Deleted { slot }),
{
    Reply::Deleted { slot }
}

/// Loading a preset sends the settings that were saved to it, whatever the
/// device was set to in between.
pub proof fn load_sends_what_was_saved(
    name: Seq<char>,
    saved: presets::StateView,
    current: presets::StateView,
    model: DeviceModel,
)
    ensures
        presets::preset_commands(
            presets::restored(presets::snapshot(name, saved), current).settings,
            model,
        ) == presets::preset_commands(saved.settings, model),
{
    presets::preset_restores_settings(name, saved, current);
}

/// `get` reads the state once, sends nothing, and answers with the model that was
/// opened, the state that was read, and its settings without a name.
pub proof fn get_reports_the_device(model: DeviceModel, state: StateView)
    ensures
        step_after_open(AfterOpenView::Get, model) matches StepView::Read { next }
            && step_after_read(next, state) matches StepView::Done {
            reply: ReplyView::State { model: m, state: s, body, note },
        } && m == model && s == state && body.settings == state.settings && body.name.len() == 0
            && note is None,
{
}

/// `set` either refuses and sends nothing, or sends a single command that brings
/// the field that was named to what the value means and leaves every other field;
/// then it reads the state again and answers with it, with the name in its form
/// and the value as it was given.
pub proof fn set_changes_the_device_and_reports_it(
    setting: Seq<char>,
    value: Seq<char>,
    model: DeviceModel,
    device: Map<Field, Meaning>,
    f: Field,
    state: StateView,
)
    requires
        effect::exists_on_devices(f),
        value::normalized(setting) == effect::name_of(f),
    ensures
        ({
            let step = step_after_open(AfterOpenView::Change { setting, value }, model);
            match effect::meant(effect::range(model, f), value) {
                Some(v) if effect::has(model, f) => {
                    &&& step matches StepView::Send { commands, next }
                    &&& effect::carried_out(model, device, commands) == device.insert(f, v)
                    &&& step_after_send(next) matches StepView::Read { next: again }
                    &&& step_after_read(again, state) matches StepView::Done {
                        reply: ReplyView::State { model: m, state: s, body, note },
                    }
                    &&& m == model && s == state
                    &&& body.settings == state.settings && body.name.len() == 0
                    &&& note == Some(NoteView::Applied { setting: effect::name_of(f), value })
                },
                _ => step is Refuse,
            }
        }),
{
    effect::request_sets_what_it_names(model, setting, value, device, f);
}

/// `preset save` stores what the device was set to in the slot that was named,
/// under the name that the slot has, or one after the slot, and sends nothing.
pub proof fn save_stores_the_device(
    slot: usize,
    model: DeviceModel,
    state: StateView,
    previous: Option<SlotView>,
)
    requires
        1 <= slot <= 4,
    ensures
        ({
            &&& step_after_open(AfterOpenView::Save { slot }, model) matches StepView::Read { next }
            &&& step_after_read(next, state) matches StepView::Find { index, next: then }
            &&& index + 1 == slot
            &&& step_after_find(then, previous) matches StepView::Store { index: i, slot: n, data }
            &&& i == index && n == slot
            &&& data.settings == state.settings
            &&& data.name == (match previous {
                Some(previous) => previous.name,
                None => "Preset "@ + text::decimal(slot as nat),
            })
        }),
{
}

/// `preset load` brings a device of any model, whatever it was set to, to every
/// setting that the model has of the preset in the slot that was named, and
/// answers with the state that is read then, the slot and the name. An empty slot
/// is refused and nothing is sent.
pub proof fn load_brings_the_device_to_the_preset(
    slot: usize,
    model: DeviceModel,
    state: StateView,
    stored: SlotView,
    device: Map<Field, Meaning>,
    f: Field,
    later: StateView,
)
    requires
        1 <= slot <= 4,
        effect::exists_on_devices(f),
        effect::has(model, f),
        f != Field::Named(Setting::Lock),
    ensures
        ({
            &&& step_after_open(AfterOpenView::Load { slot }, model) matches StepView::Find {
                index,
                next,
            }
            &&& index + 1 == slot
            &&& step_after_find(next, None) is Refuse
            &&& step_after_find(next, Some(stored)) matches StepView::Read { next: then }
            &&& step_after_read(then, state) matches StepView::Send { commands, next: last }
            &&& Some(effect::carried_out(model, device, commands)[f]) == effect::reading(
                stored.settings,
                f,
            )
            &&& step_after_send(last) matches StepView::Read { next: again }
            &&& step_after_read(again, later) matches StepView::Done {
                reply: ReplyView::State { model: m, state: s, note, .. },
            }
            &&& m == model && s == later
            &&& note == Some(NoteView::Loaded { slot, name: stored.name })
        }),
{
    effect::preset_brings_the_device_to_its_settings(stored.settings, model, device, f);
}

/// A slot that does not exist is refused, whether it is to be saved or loaded, and
/// nothing is read or sent.
pub proof fn missing_slots_are_refused(slot: usize, model: DeviceModel)
    requires
        slot == 0 || slot > 4,
    ensures
        step_after_open(AfterOpenView::Save { slot }, model) == (StepView::Refuse {
            fault: Fault::BadSlot { slot: slot as int },
        }),
        step_after_open(AfterOpenView::Load { slot }, model) == (StepView::Refuse {
            fault: Fault::BadSlot { slot: slot as int },
        }),
{
}

/// Help on settings is asked for by the word `help` in any case, with or without a
/// value; any other name without a value is refused, and with one goes to the
/// device as it was given.
pub proof fn help_is_asked_for_by_its_word(setting: String, value: Option<String>)
    ensures
        ({
            let step = set_step(setting, value);
            let asks = setting@.len() == 4 && (setting@[0] == 'h' || setting@[0] == 'H') && (
            setting@[1] == 'e' || setting@[1] == 'E') && (setting@[2] == 'l' || setting@[2] == 'L')
                && (setting@[3] == 'p' || setting@[3] == 'P');
            if asks {
                step == (Step::Done { reply: Reply::Help })
            } else if value is None {
                step@ == (StepView::Refuse { fault: Fault::MissingValue { setting: setting@ } })
            } else {
                step@ == (StepView::Open {
                    next: AfterOpenView::Change { setting: setting@, value: (value->0)@ },
                })
            }
        }),
{
    reveal_strlit("help");
    let word = text::lowered(setting@);
    if word == "help"@ {
        assert(word.len() == setting@.len());
        assert(text::lower(setting@[0]) == word[0] && text::lower(setting@[1]) == word[1]
            && text::lower(setting@[2]) == word[2] && text::lower(setting@[3]) == word[3]);
        assert(word[0] == 'h' && word[1] == 'e' && word[2] == 'l' && word[3] == 'p');
    } else if setting@.len() == 4 && text::lower(setting@[0]) == 'h' && text::lower(setting@[1])
        == 'e' && text::lower(setting@[2]) == 'l' && text::lower(setting@[3]) == 'p' {
        assert(word =~= "help"@);
    }
}

} // verus!
