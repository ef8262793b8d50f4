//! What can be wrong with a request, and how it is reported.

use vstd::prelude::*;

use crate::number::IntFault;
use crate::protocol::DeviceModel;
use crate::text;
use crate::token;
use crate::token::TokenKind;

verus! {

/// How many presets there are.
pub const PRESET_COUNT: usize = 4;

/// Why a request was refused.
#[derive(Debug)]
pub enum SettingError {
    /// A setting was named without a value.
    MissingValue { setting: String },
    /// No setting has this name.
    UnknownSetting { key: String },
    /// The model does not have this setting.
    Unsupported { key: String, model: DeviceModel },
    /// Nothing carries out a change of this setting.
    NoHandler { key: String },
    /// The value is none of the words of its kind.
    BadToken { value: String, kind: TokenKind },
    /// The value is neither on nor off.
    NotOnOff { value: String },
    /// The value is no whole number.
    NotInteger { value: String, lo: i16, hi: i16 },
    /// The number is out of bounds.
    OutOfRange { n: i16, lo: i16, hi: i16 },
    /// The value is no number.
    NotDecibels { value: String },
    /// The gain is beyond what an equalizer band allows.
    GainOutOfRange { value: String },
    /// The value does not have the form of a color.
    BadColor { value: String },
    /// A component of a color is no number from 0 to 255.
    BadComponent { fault: IntFault },
    /// There is no preset slot of this number.
    BadSlot { slot: usize },
    /// The preset slot holds nothing.
    EmptySlot { slot: usize },
    /// No model has this name.
    BadModel { word: String },
}

/// What a `SettingError` says, with its texts as characters.
pub enum Fault {
    MissingValue { setting: Seq<char> },
    UnknownSetting { key: Seq<char> },
    Unsupported { key: Seq<char>, model: DeviceModel },
    NoHandler { key: Seq<char> },
    BadToken { value: Seq<char>, kind: TokenKind },
    NotOnOff { value: Seq<char> },
    NotInteger { value: Seq<char>, lo: int, hi: int },
    OutOfRange { n: int, lo: int, hi: int },
    NotDecibels { value: Seq<char> },
    GainOutOfRange { value: Seq<char> },
    BadColor { value: Seq<char> },
    BadComponent { fault: IntFault },
    BadSlot { slot: int },
    EmptySlot { slot: int },
    BadModel { word: Seq<char> },
}

impl View for SettingError {
    type V = Fault;

    open spec fn view(&self) -> Fault {
        match *self {
            SettingError::MissingValue { setting } => Fault::MissingValue { setting: setting@ },
            SettingError::UnknownSetting { key } => Fault::UnknownSetting { key: key@ },
            SettingError::Unsupported { key, model } => Fault::Unsupported { key: key@, model },
            SettingError::NoHandler { key } => Fault::NoHandler { key: key@ },
            SettingError::BadToken { value, kind } => Fault::BadToken { value: value@, kind },
            SettingError::NotOnOff { value } => Fault::NotOnOff { value: value@ },
            SettingError::NotInteger { value, lo, hi } => Fault::NotInteger {
                value: value@,
                lo: lo as int,
                hi: hi as int,
            },
            SettingError::OutOfRange { n, lo, hi } => Fault::OutOfRange {
                n: n as int,
                lo: lo as int,
                hi: hi as int,
            },
            SettingError::NotDecibels { value } => Fault::NotDecibels { value: value@ },
            SettingError::GainOutOfRange { value } => Fault::GainOutOfRange { value: value@ },
            SettingError::BadColor { value } => Fault::BadColor { value: value@ },
            SettingError::BadComponent { fault } => Fault::BadComponent { fault },
            SettingError::BadSlot { slot } => Fault::BadSlot { slot: slot as int },
            SettingError::EmptySlot { slot } => Fault::EmptySlot { slot: slot as int },
            SettingError::BadModel { word } => Fault::BadModel { word: word@ },
        }
    }
}

/// Whether a result is the one that was specified.
pub open spec fn agrees<T>(result: Result<T, SettingError>, wanted: Result<T, Fault>) -> bool {
    match result {
        Ok(value) => wanted == Ok::<T, Fault>(value),
        Err(error) => wanted == Err::<T, Fault>(error@),
    }
}

/// A word between back quotes.
pub open spec fn quoted(word: Seq<char>) -> Seq<char> {
    "`"@ + word + "`"@
}

/// Quoted words with commas between them.
pub open spec fn listed(list: Seq<Seq<char>>) -> Seq<char>
    decreases list.len(),
{
    if list.len() == 0 {
        Seq::empty()
    } else if list.len() == 1 {
        quoted(list[0])
    } else {
        listed(list.drop_last()) + ", "@ + quoted(list.last())
    }
}

/// A choice between words.
pub open spec fn choice(list: Seq<Seq<char>>) -> Seq<char> {
    if list.len() == 1 {
        quoted(list[0])
    } else if list.len() == 2 {
        quoted(list[0]) + " or "@ + quoted(list[1])
    } else {
        "one of "@ + listed(list)
    }
}

/// The message that a word is none of those that were expected.
pub open spec fn unknown_variant_text(word: Seq<char>, list: Seq<Seq<char>>) -> Seq<char> {
    "unknown variant "@ + quoted(word) + ", expected "@ + choice(list)
}

/// `serde::de::Error::unknown_variant`, as `serde_json` implements it, gives an
/// error whose text names the word that was met and then each word that was
/// expected, in order and between back quotes: a single one alone, two with
/// `or` between them, and more as a list after `one of`.
#[verifier::external_body]
fn unknown_variant(word: &str, expected: &'static [&'static str]) -> (message: String)
    requires
        expected@.len() > 0,
    ensures
        message@ == unknown_variant_text(word@, expected@.map_values(|w: &'static str| w@)),
{
    <serde_json::Error as serde::de::Error>::unknown_variant(word, expected).to_string()
}

/// The message for a refused request. `gain` is the refused gain in decibels,
/// as a number is shown; only a gain out of range speaks of it.
pub open spec fn fault_text(fault: Fault, gain: Seq<char>) -> Seq<char> {
    match fault {
        Fault::MissingValue { setting } => "a value is required: `set "@ + setting
            + " <value>` (run `set help` for options)"@,
        Fault::UnknownSetting { key } => "unknown setting '"@ + key
            + "'. Run `shurectl set help` to list settings."@,
        Fault::Unsupported { key, model } => "setting '"@ + key + "' is not supported on "@
            + model.name(),
        Fault::NoHandler { key } => "internal: no handler for setting '"@ + key + "'"@,
        Fault::BadToken { value, kind } => "invalid value '"@ + value + "' ("@
            + unknown_variant_text(text::lowered(text::trimmed(value)), token::words(kind)) + ")"@,
        Fault::NotOnOff { value } => "expected on/off, got '"@ + value + "'"@,
        Fault::NotInteger { value, lo, hi } => "expected an integer "@ + text::signed_decimal(lo)
            + "..="@ + text::signed_decimal(hi) + ", got '"@ + value + "'"@,
        Fault::OutOfRange { n, lo, hi } => "value "@ + text::signed_decimal(n) + " out of range "@
            + text::signed_decimal(lo) + "..="@ + text::signed_decimal(hi),
        Fault::NotDecibels { value } => "expected a number in dB, got '"@ + value + "'"@,
        Fault::GainOutOfRange { value } => "EQ gain "@ + gain + " dB out of range -8.0..=6.0"@,
        Fault::BadColor { value } => "invalid color '"@ + value
            + "'; expected hex RRGGBB or r,g,b"@,
        Fault::BadComponent { fault } => match fault {
            IntFault::Empty => "cannot parse integer from empty string"@,
            IntFault::InvalidDigit => "invalid digit found in string"@,
            IntFault::TooLarge => "number too large to fit in target type"@,
        },
        Fault::BadSlot { slot } => "slot must be 1..="@ + text::decimal(PRESET_COUNT as nat)
            + ", got "@ + text::decimal(slot as nat),
        Fault::EmptySlot { slot } => "preset slot "@ + text::decimal(slot as nat) + " is empty"@,
        Fault::BadModel { word } => "unknown demo model \""@ + word
            + "\". Valid options: mvx2u, mvx2u-gen2, mv6, mv7plus"@,
    }
}

/// A text between two others.
fn between(before: &str, middle: &str, after: &str) -> (joined: String)
    ensures
        joined@ == before@ + middle@ + after@,
{
    let mut joined = before.to_owned();
    joined.append(middle);
    joined.append(after);
    joined
}

impl SettingError {
    /// The message that reports this error. `gain` is the refused gain in
    /// decibels, as a number is shown; only a gain out of range speaks of it.
    pub fn message(&self, gain: &str) -> (message: String)
        ensures
            message@ == fault_text(self@, gain@),
    {
        match self {
            SettingError::MissingValue { setting } => between(
                "a value is required: `set ",
                setting.as_str(),
                " <value>` (run `set help` for options)",
            ),
            SettingError::UnknownSetting { key } => between(
                "unknown setting '",
                key.as_str(),
                "'. Run `shurectl set help` to list settings.",
            ),
            SettingError::Unsupported { key, model } => {
                let mut m = between("setting '", key.as_str(), "' is not supported on ");
                m.append(model.display_name());
                m
            },
            SettingError::NoHandler { key } => between(
                "internal: no handler for setting '",
                key.as_str(),
                "'",
            ),
            SettingError::BadToken { value, kind } => {
                let word = text::text_of(
                    &text::to_lower(&text::trim(&text::chars_of(value.as_str()))),
                );
                let expected = token::word_list(*kind);
                let detail = unknown_variant(word.as_str(), expected);
                proof {
                    assert(expected@.map_values(|w: &'static str| w@) =~= token::words(*kind));
                }
                let mut m = between("invalid value '", value.as_str(), "' (");
                m.append(detail.as_str());
                m.append(")");
                m
            },
            SettingError::NotOnOff { value } => between(
                "expected on/off, got '",
                value.as_str(),
                "'",
            ),
            SettingError::NotInteger { value, lo, hi } => {
                let mut m = "expected an integer ".to_owned();
                text::append_signed(&mut m, *lo);
                m.append("..=");
                text::append_signed(&mut m, *hi);
                m.append(", got '");
                m.append(value.as_str());
                m.append("'");
                m
            },
            SettingError::OutOfRange { n, lo, hi } => {
                let mut m = "value ".to_owned();
                text::append_signed(&mut m, *n);
                m.append(" out of range ");
                text::append_signed(&mut m, *lo);
                m.append("..=");
                text::append_signed(&mut m, *hi);
                m
            },
            SettingError::NotDecibels { value } => between(
                "expected a number in dB, got '",
                value.as_str(),
                "'",
            ),
            SettingError::GainOutOfRange { value: _ } => between(
                "EQ gain ",
                gain,
                " dB out of range -8.0..=6.0",
            ),
            SettingError::BadColor { value } => between(
                "invalid color '",
                value.as_str(),
                "'; expected hex RRGGBB or r,g,b",
            ),
            SettingError::BadComponent { fault } => match fault {
                IntFault::Empty => "cannot parse integer from empty string".to_owned(),
                IntFault::InvalidDigit => "invalid digit found in string".to_owned(),
                IntFault::TooLarge => "number too large to fit in target type".to_owned(),
            },
            SettingError::BadSlot { slot } => {
                let mut m = "slot must be 1..=".to_owned();
                text::append_decimal(&mut m, PRESET_COUNT as u64);
                m.append(", got ");
                text::append_decimal(&mut m, *slot as u64);
                m
            },
            SettingError::EmptySlot { slot } => {
                let mut m = "preset slot ".to_owned();
                text::append_decimal(&mut m, *slot as u64);
                m.append(" is empty");
                m
            },
            SettingError::BadModel { word } => between(
                "unknown demo model \"",
                word.as_str(),
                "\". Valid options: mvx2u, mvx2u-gen2, mv6, mv7plus",
            ),
        }
    }
}

} // verus!
