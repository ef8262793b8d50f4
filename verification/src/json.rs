//! The JSON objects in which commands answer.

use serde_json::Value;
use vstd::prelude::*;

use crate::catalog;
use crate::headless::Note;
use crate::protocol::{DeviceModel, DeviceState};
use crate::text;

verus! {

/// A JSON value of `serde_json`.
#[verifier::external_type_specification]
#[verifier::external_body]
pub struct ExValue(serde_json::Value);

/// An error of `serde_json`.
#[verifier::external_type_specification]
#[verifier::external_body]
pub struct ExError(serde_json::Error);

/// What a JSON value says. A number is given by its digits.
pub enum Json {
    Null,
    Bool(bool),
    Number(Seq<char>),
    Text(Seq<char>),
    Array(Seq<Json>),
    Object(Map<Seq<char>, Json>),
}

/// What a `serde_json::Value` holds.
pub uninterp spec fn json_of(value: serde_json::Value) -> Json;

/// The text that `serde_json::to_string_pretty` makes of a value that holds
/// this.
pub uninterp spec fn pretty_text(json: Json) -> Seq<char>;

/// `serde_json::Value::from` makes a string out of a text.
#[verifier::external_body]
fn string_value(s: &str) -> (value: Value)
    ensures
        json_of(value) == Json::Text(s@),
{
    Value::from(s)
}

/// `serde_json::Value::from` makes a number out of an integer; it shows as the
/// integer does in decimal.
#[verifier::external_body]
fn number_value(n: u64) -> (value: Value)
    ensures
        json_of(value) == Json::Number(text::decimal(n as nat)),
{
    Value::from(n)
}

/// `serde_json::Value::from` makes a truth value out of a `bool`.
#[verifier::external_body]
fn bool_value(b: bool) -> (value: Value)
    ensures
        json_of(value) == Json::Bool(b),
{
    Value::from(b)
}

/// `serde_json::Value::from` makes an array out of a vector of values, which it
/// holds in the same order.
#[verifier::external_body]
fn array_value(items: Vec<Value>) -> (value: Value)
    ensures
        json_of(value) == Json::Array(items@.map_values(|v: Value| json_of(v))),
{
    Value::from(items)
}

/// `serde_json::Map::new` makes an object without entries.
#[verifier::external_body]
fn empty_object() -> (value: Value)
    ensures
        json_of(value) == Json::Object(Map::empty()),
{
    Value::Object(serde_json::Map::new())
}

/// A value with an entry added or replaced; one that is no object stays.
pub open spec fn with_entry(json: Json, key: Seq<char>, item: Json) -> Json {
    match json {
        Json::Object(entries) => Json::Object(entries.insert(key, item)),
        _ => json,
    }
}

/// A value without an entry; one that is no object stays.
pub open spec fn without_entry(json: Json, key: Seq<char>) -> Json {
    match json {
        Json::Object(entries) => Json::Object(entries.remove(key)),
        _ => json,
    }
}

/// `serde_json::Map::insert`, on the map that `serde_json::Value::as_object_mut`
/// gives, puts the item under the key, in place of what was there.
#[verifier::external_body]
fn insert_entry(object: &mut Value, key: &str, item: Value)
    ensures
        json_of(*final(object)) == with_entry(json_of(*old(object)), key@, json_of(item)),
{
    if let Some(map) = object.as_object_mut() {
        map.insert(key.to_string(), item);
    }
}

/// `serde_json::Map::remove`, on the map that `serde_json::Value::as_object_mut`
/// gives, takes the key and what is under it out.
#[verifier::external_body]
fn remove_entry(object: &mut Value, key: &str)
    ensures
        json_of(*final(object)) == without_entry(json_of(*old(object)), key@),
{
    if let Some(map) = object.as_object_mut() {
        map.remove(key);
    }
}

/// `serde_json::to_string_pretty` always makes a text of a value, and the same
/// text of the same contents.
#[verifier::external_body]
fn pretty(value: &Value) -> (r: Result<String, serde_json::Error>)
    ensures
        r is Ok,
        r matches Ok(text) ==> text@ == pretty_text(json_of(*value)),
{
    serde_json::to_string_pretty(value)
}

/// The report of a device's state. `slot` holds the settings as a preset
/// stores them; the name that a preset has means nothing here and is left out.
pub open spec fn state_object(model: DeviceModel, serial: Seq<char>, slot: Json) -> Json {
    Json::Object(
        Map::empty().insert("model"@, Json::Text(model.name())).insert(
            "serial"@,
            Json::Text(serial),
        ).insert("settings"@, without_entry(slot, "name"@)),
    )
}

/// Reports a device's state. `slot` holds its settings as a preset stores
/// them.
pub fn state_json(model: DeviceModel, state: &DeviceState, slot: Value) -> (value: Value)
    ensures
        json_of(value) == state_object(model, state.serial_number@, json_of(slot)),
{
    let mut settings = slot;
    remove_entry(&mut settings, "name");
    let mut value = empty_object();
    insert_entry(&mut value, "model", string_value(model.display_name()));
    insert_entry(&mut value, "serial", string_value(state.serial_number.as_str()));
    insert_entry(&mut value, "settings", settings);
    value
}

/// A report with a note on what was changed.
pub open spec fn noted(report: Json, note: Note) -> Json {
    match note {
        Note::Applied { setting, value } => with_entry(
            report,
            "applied"@,
            Json::Object(
                Map::empty().insert("setting"@, Json::Text(setting@)).insert(
                    "value"@,
                    Json::Text(value@),
                ),
            ),
        ),
        Note::Loaded { slot, name } => with_entry(report, "loaded"@, slot_object(slot, name@)),
    }
}

/// A slot and the name of the preset in it.
pub open spec fn slot_object(slot: usize, name: Seq<char>) -> Json {
    Json::Object(
        Map::empty().insert("slot"@, Json::Number(text::decimal(slot as nat))).insert(
            "name"@,
            Json::Text(name),
        ),
    )
}

fn slot_json(slot: usize, name: &str) -> (value: Value)
    ensures
        json_of(value) == slot_object(slot, name@),
{
    let mut value = empty_object();
    insert_entry(&mut value, "slot", number_value(slot as u64));
    insert_entry(&mut value, "name", string_value(name));
    value
}

/// Adds a note on what was changed to a report.
pub fn add_note(report: Value, note: &Note) -> (value: Value)
    ensures
        json_of(value) == noted(json_of(report), *note),
{
    let mut out = report;
    match note {
        Note::Applied { setting, value } => {
            let mut applied = empty_object();
            insert_entry(&mut applied, "setting", string_value(setting.as_str()));
            insert_entry(&mut applied, "value", string_value(value.as_str()));
            insert_entry(&mut out, "applied", applied);
        },
        Note::Loaded { slot, name } => {
            insert_entry(&mut out, "loaded", slot_json(*slot, name.as_str()));
        },
    }
    out
}

/// The entry of one slot in the list of presets.
pub open spec fn slot_entry(slot: int, stored: Option<Json>) -> Json {
    let numbered = Map::empty().insert("slot"@, Json::Number(text::decimal(slot as nat)));
    match stored {
        Some(preset) => Json::Object(
            numbered.insert("filled"@, Json::Bool(true)).insert("preset"@, preset),
        ),
        None => Json::Object(numbered.insert("filled"@, Json::Bool(false))),
    }
}

/// What a slot stores.
pub open spec fn stored_json(stored: Option<Value>) -> Option<Json> {
    match stored {
        Some(value) => Some(json_of(value)),
        None => None,
    }
}

/// The list of presets.
pub open spec fn list_object(stored: Seq<Option<Value>>) -> Json {
    Json::Object(
        Map::empty().insert(
            "presets"@,
            Json::Array(
                Seq::new(stored.len(), |i: int| slot_entry(i + 1, stored_json(stored[i]))),
            ),
        ),
    )
}

/// Lists the presets, given what each slot stores.
pub fn preset_list_json(stored: Vec<Option<Value>>) -> (value: Value)
    ensures
        json_of(value) == list_object(stored@),
{
    let ghost given = stored@;
    let mut stored = stored;
    let mut items: Vec<Value> = Vec::new();
    let count = stored.len();
    for i in 0..count
        invariant
            count == given.len() == stored@.len(),
            items@.len() == i,
            forall|k: int| i <= k < count ==> stored@[k] == given[k],
            forall|k: int|
                0 <= k < i ==> json_of(#[trigger] items@[k]) == slot_entry(
                    k + 1,
                    stored_json(given[k]),
                ),
    {
        let mut entry = empty_object();
        insert_entry(&mut entry, "slot", number_value(i as u64 + 1));
        match stored[i].take() {
            Some(preset) => {
                insert_entry(&mut entry, "filled", bool_value(true));
                insert_entry(&mut entry, "preset", preset);
            },
            None => {
                insert_entry(&mut entry, "filled", bool_value(false));
            },
        }
        items.push(entry);
    }
    proof {
        assert(items@.map_values(|v: Value| json_of(v)) =~= Seq::new(
            given.len(),
            |i: int| slot_entry(i + 1, stored_json(given[i])),
        ));
    }
    let mut value = empty_object();
    insert_entry(&mut value, "presets", array_value(items));
    value
}

/// The answer that a preset was saved.
pub open spec fn saved_object(slot: usize, name: Seq<char>, preset: Json) -> Json {
    Json::Object(
        Map::empty().insert("saved"@, slot_object(slot, name)).insert("preset"@, preset),
    )
}

/// Answers that a preset was saved.
pub fn saved_json(slot: usize, name: &str, preset: Value) -> (value: Value)
    ensures
        json_of(value) == saved_object(slot, name@, json_of(preset)),
{
    let mut value = empty_object();
    insert_entry(&mut value, "saved", slot_json(slot, name));
    insert_entry(&mut value, "preset", preset);
    value
}

/// The answer that a preset was deleted.
pub open spec fn deleted_object(slot: usize) -> Json {
    Json::Object(
        Map::empty().insert(
            "deleted"@,
            Json::Object(
                Map::empty().insert("slot"@, Json::Number(text::decimal(slot as nat))),
            ),
        ),
    )
}

/// Answers that a preset was deleted.
pub fn deleted_json(slot: usize) -> (value: Value)
    ensures
        json_of(value) == deleted_object(slot),
{
    let mut inner = empty_object();
    insert_entry(&mut inner, "slot", number_value(slot as u64));
    let mut value = empty_object();
    insert_entry(&mut value, "deleted", inner);
    value
}

/// The help on one setting.
pub open spec fn help_entry(row: catalog::Row) -> Json {
    Json::Object(
        Map::empty().insert("setting"@, Json::Text(row.name)).insert(
            "values"@,
            Json::Text(row.values),
        ).insert(
            "models"@,
            Json::Array(Seq::new(row.models.len(), |i: int| Json::Text(row.models[i].name()))),
        ),
    )
}

/// The help on all settings.
pub open spec fn help_object() -> Json {
    Json::Object(
        Map::empty().insert(
            "settings"@,
            Json::Array(
                Seq::new(catalog::rows().len(), |i: int| help_entry(catalog::rows()[i])),
            ),
        ),
    )
}

fn model_names(models: &[DeviceModel]) -> (value: Value)
    ensures
        json_of(value) == Json::Array(
            Seq::new(models@.len(), |i: int| Json::Text(models@[i].name())),
        ),
{
    let mut names: Vec<Value> = Vec::new();
    for i in 0..models.len()
        invariant
            names@.len() == i,
            forall|k: int|
                0 <= k < i ==> json_of(#[trigger] names@[k]) == Json::Text(models@[k].name()),
    {
        names.push(string_value(models[i].display_name()));
    }
    proof {
        assert(names@.map_values(|v: Value| json_of(v)) =~= Seq::new(
            models@.len(),
            |i: int| Json::Text(models@[i].name()),
        ));
    }
    array_value(names)
}

/// Describes every setting that can be changed by name.
pub fn help_json() -> (value: Value)
    ensures
        json_of(value) == help_object(),
{
    let entries = catalog::catalog();
    let mut items: Vec<Value> = Vec::new();
    for i in 0..entries.len()
        invariant
            entries@.len() == catalog::rows().len(),
            forall|k: int|
                0 <= k < catalog::rows().len() ==> (#[trigger] entries@[k])@ == catalog::rows()[k],
            items@.len() == i,
            forall|k: int|
                0 <= k < i ==> json_of(#[trigger] items@[k]) == help_entry(catalog::rows()[k]),
    {
        let e = &entries[i];
        proof {
            assert(e@ == catalog::rows()[i as int]);
        }
        let mut entry = empty_object();
        insert_entry(&mut entry, "setting", string_value(e.name.as_str()));
        insert_entry(&mut entry, "values", string_value(e.values));
        insert_entry(&mut entry, "models", model_names(e.models));
        items.push(entry);
    }
    proof {
        assert(items@.map_values(|v: Value| json_of(v)) =~= Seq::new(
            catalog::rows().len(),
            |i: int| help_entry(catalog::rows()[i]),
        ));
    }
    let mut value = empty_object();
    insert_entry(&mut value, "settings", array_value(items));
    value
}

/// The answer that something went wrong.
pub open spec fn error_object(message: Seq<char>) -> Json {
    Json::Object(Map::empty().insert("error"@, Json::Text(message)))
}

/// Answers that something went wrong.
pub fn error_json(message: &str) -> (value: Value)
    ensures
        json_of(value) == error_object(message@),
{
    let mut value = empty_object();
    insert_entry(&mut value, "error", string_value(message));
    value
}

/// What a command prints, and whether it failed.
pub struct Output {
    pub text: String,
    pub failed: bool,
}

/// What is printed for an answer, or for the message of a failure.
pub open spec fn answer(outcome: Result<Value, String>) -> Json {
    match outcome {
        Ok(value) => json_of(value),
        Err(message) => error_object(message@),
    }
}

/// Turns the outcome of a command into what it prints.
pub fn run(outcome: Result<Value, String>) -> (r: Result<Output, serde_json::Error>)
    ensures
        r matches Ok(output) && output.text@ == pretty_text(answer(outcome)) && output.failed
            == outcome is Err,
{
    let (value, failed) = match outcome {
        Ok(value) => (value, false),
        Err(message) => (error_json(message.as_str()), true),
    };
    match pretty(&value) {
        Ok(text) => Ok(Output { text, failed }),
        Err(e) => Err(e),
    }
}

/// Whatever a command answers is a single JSON object.
pub proof fn answers_are_objects(
    model: DeviceModel,
    serial: Seq<char>,
    body: Json,
    note: Note,
    stored: Seq<Option<Value>>,
    slot: usize,
    name: Seq<char>,
    message: Seq<char>,
)
    ensures
        state_object(model, serial, body) is Object,
        noted(state_object(model, serial, body), note) is Object,
        list_object(stored) is Object,
        saved_object(slot, name, body) is Object,
        deleted_object(slot) is Object,
        help_object() is Object,
        error_object(message) is Object,
{
}

/// A note adds to a report and leaves what the report says as it is.
pub proof fn notes_keep_the_report(
    model: DeviceModel,
    serial: Seq<char>,
    body: Json,
    note: Note,
    key: Seq<char>,
)
    requires
        state_object(model, serial, body)->Object_0.dom().contains(key),
    ensures
        ({
            let report = state_object(model, serial, body)->Object_0;
            let with_note = noted(state_object(model, serial, body), note)->Object_0;
            with_note.dom().contains(key) && with_note[key] == report[key]
        }),
{
    reveal_strlit("applied");
    reveal_strlit("loaded");
    reveal_strlit("model");
    reveal_strlit("serial");
    reveal_strlit("settings");
    assert("loaded"@[0] != "serial"@[0]);
    assert(key == "model"@ || key == "serial"@ || key == "settings"@);
    assert(key != "applied"@ && key != "loaded"@) by {
        assert("applied"@.len() == 7 && "loaded"@.len() == 6);
        assert("model"@.len() == 5 && "serial"@.len() == 6 && "settings"@.len() == 8);
    }
}

/// A report gives the model, the serial number, and every entry of the settings
/// but the name of a preset.
pub proof fn report_keeps_the_settings(
    model: DeviceModel,
    serial: Seq<char>,
    entries: Map<Seq<char>, Json>,
    key: Seq<char>,
)
    ensures
        ({
            let report = state_object(model, serial, Json::Object(entries))->Object_0;
            let settings = report["settings"@]->Object_0;
            &&& report["model"@] == Json::Text(model.name())
            &&& report["serial"@] == Json::Text(serial)
            &&& report["settings"@] is Object
            &&& settings.dom().contains(key) <==> entries.dom().contains(key) && key != "name"@
            &&& settings.dom().contains(key) ==> settings[key] == entries[key]
        }),
{
    reveal_strlit("model");
    reveal_strlit("serial");
    reveal_strlit("settings");
    assert("model"@.len() == 5 && "serial"@.len() == 6 && "settings"@.len() == 8);
}

/// The list of presets counts its slots from one, says of each whether it is
/// filled, and holds the preset exactly where it is.
pub proof fn list_says_what_is_filled(stored: Seq<Option<Value>>, i: int)
    requires
        0 <= i < stored.len(),
    ensures
        ({
            let list = list_object(stored)->Object_0["presets"@]->Array_0;
            let entry = list[i]->Object_0;
            &&& list.len() == stored.len()
            &&& list[i] is Object
            &&& entry["slot"@] == Json::Number(text::decimal((i + 1) as nat))
            &&& entry["filled"@] == Json::Bool(stored[i] is Some)
            &&& entry.dom().contains("preset"@) <==> stored[i] is Some
            &&& stored[i] matches Some(value) ==> entry["preset"@] == json_of(value)
        }),
{
    reveal_strlit("slot");
    reveal_strlit("filled");
    reveal_strlit("preset");
    assert("slot"@.len() == 4 && "filled"@.len() == 6 && "preset"@.len() == 6);
    assert("filled"@[0] != "preset"@[0]);
}

} // verus!
