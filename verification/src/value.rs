//! Names and values as users write them: switches, numbers, gains, colors and
//! words.

use vstd::prelude::*;

use crate::decibel;
use crate::decibel::Reading;
use crate::error;
use crate::error::{Fault, SettingError, PRESET_COUNT};
use crate::number;
use crate::protocol::DeviceModel;
use crate::text;
use crate::token::Token;

verus! {

/// A character in lower case, with a hyphen for an underscore.
pub open spec fn fold(c: char) -> char {
    if text::lower(c) == '_' {
        '-'
    } else {
        text::lower(c)
    }
}

/// A setting name without white space around it, in lower case and with
/// hyphens for underscores.
pub open spec fn normalized(s: Seq<char>) -> Seq<char> {
    text::trimmed(s).map_values(|c: char| fold(c))
}

/// Lowercases a setting name and unifies its separators, so that
/// `monitor_mix`, `Monitor-Mix` and `monitor-mix` are one key.
pub fn normalize(setting: &str) -> (key: String)
    ensures
        key@ == normalized(setting@),
{
    let chars = text::to_hyphens(&text::to_lower(&text::trim(&text::chars_of(setting))));
    proof {
        assert(chars@ =~= normalized(setting@));
    }
    text::text_of(&chars)
}

proof fn lemma_fold_keeps_white(c: char)
    ensures
        text::is_white(fold(c)) == text::is_white(c),
        fold(fold(c)) == fold(c),
{
}

proof fn lemma_trim_start_folds(s: Seq<char>)
    ensures
        text::trimmed_start(s.map_values(|c: char| fold(c))) == text::trimmed_start(s).map_values(
            |c: char| fold(c),
        ),
    decreases s.len(),
{
    let t = s.map_values(|c: char| fold(c));
    if s.len() > 0 {
        lemma_fold_keeps_white(s.first());
        if text::is_white(s.first()) {
            assert(t.drop_first() =~= s.drop_first().map_values(|c: char| fold(c)));
            lemma_trim_start_folds(s.drop_first());
        }
    }
}

proof fn lemma_trim_end_folds(s: Seq<char>)
    ensures
        text::trimmed_end(s.map_values(|c: char| fold(c))) == text::trimmed_end(s).map_values(
            |c: char| fold(c),
        ),
    decreases s.len(),
{
    let t = s.map_values(|c: char| fold(c));
    if s.len() > 0 {
        lemma_fold_keeps_white(s.last());
        if text::is_white(s.last()) {
            assert(t.drop_last() =~= s.drop_last().map_values(|c: char| fold(c)));
            lemma_trim_end_folds(s.drop_last());
        }
    }
}

proof fn lemma_fold_first(s: Seq<char>)
    ensures
        normalized(s) == text::trimmed(s.map_values(|c: char| fold(c))),
{
    lemma_trim_start_folds(s);
    lemma_trim_end_folds(text::trimmed_start(s));
}

/// Names that differ only in case and separators are one key.
pub proof fn normalize_unifies(a: Seq<char>, b: Seq<char>)
    requires
        a.len() == b.len(),
        forall|i: int| 0 <= i < a.len() ==> fold(#[trigger] a[i]) == fold(b[i]),
    ensures
        normalized(a) == normalized(b),
{
    lemma_fold_first(a);
    lemma_fold_first(b);
    assert(a.map_values(|c: char| fold(c)) =~= b.map_values(|c: char| fold(c)));
}

proof fn lemma_trim_start_again(s: Seq<char>)
    ensures
        text::trimmed_start(text::trimmed_start(s)) == text::trimmed_start(s),
    decreases s.len(),
{
    if s.len() > 0 && text::is_white(s.first()) {
        lemma_trim_start_again(s.drop_first());
    }
}

proof fn lemma_trim_end_again(s: Seq<char>)
    ensures
        text::trimmed_end(text::trimmed_end(s)) == text::trimmed_end(s),
    decreases s.len(),
{
    if s.len() > 0 && text::is_white(s.last()) {
        lemma_trim_end_again(s.drop_last());
    }
}

proof fn lemma_trim_end_keeps_start(s: Seq<char>)
    requires
        text::trimmed_start(s) == s,
    ensures
        text::trimmed_start(text::trimmed_end(s)) == text::trimmed_end(s),
    decreases s.len(),
{
    if s.len() > 0 && text::is_white(s.last()) {
        if text::is_white(s.first()) {
            lemma_trim_start_shrinks(s.drop_first());
        }
        let t = s.drop_last();
        if t.len() > 0 {
            assert(t.first() == s.first());
        }
        lemma_trim_end_keeps_start(t);
    }
}

proof fn lemma_trim_start_shrinks(s: Seq<char>)
    ensures
        text::trimmed_start(s).len() <= s.len(),
    decreases s.len(),
{
    if s.len() > 0 && text::is_white(s.first()) {
        lemma_trim_start_shrinks(s.drop_first());
    }
}

/// A trimmed text has nothing left to trim.
pub proof fn trim_is_final(s: Seq<char>)
    ensures
        text::trimmed(text::trimmed(s)) == text::trimmed(s),
{
    let t = text::trimmed_start(s);
    lemma_trim_start_again(s);
    lemma_trim_end_keeps_start(t);
    lemma_trim_end_again(t);
}

/// A key is already in the form that names are brought into.
pub proof fn normalize_is_final(s: Seq<char>)
    ensures
        normalized(normalized(s)) == normalized(s),
{
    let t = text::trimmed(s);
    trim_is_final(s);
    lemma_fold_first(t);
    let key = normalized(s);
    assert(text::trimmed(key) == key);
    assert(normalized(key) =~= key) by {
        assert forall|i: int| 0 <= i < key.len() implies fold(#[trigger] key[i]) == key[i] by {
            lemma_fold_keeps_white(t[i]);
        }
    }
}

/// The switch that a value names.
pub open spec fn on_off(value: Seq<char>) -> Result<bool, Fault> {
    let word = text::lowered(text::trimmed(value));
    if word == "on"@ || word == "true"@ || word == "1"@ || word == "yes"@ || word == "enabled"@ {
        Ok(true)
    } else if word == "off"@ || word == "false"@ || word == "0"@ || word == "no"@ || word
        == "disabled"@ {
        Ok(false)
    } else {
        Err(Fault::NotOnOff { value })
    }
}

/// Parses a switch.
pub fn parse_bool(value: &str) -> (r: Result<bool, SettingError>)
    ensures
        error::agrees(r, on_off(value@)),
{
    let word = text::text_of(&text::to_lower(&text::trim(&text::chars_of(value))));
    let w = word.as_str();
    if text::same_text(w, "on") || text::same_text(w, "true") || text::same_text(w, "1")
        || text::same_text(w, "yes") || text::same_text(w, "enabled") {
        Ok(true)
    } else if text::same_text(w, "off") || text::same_text(w, "false") || text::same_text(w, "0")
        || text::same_text(w, "no") || text::same_text(w, "disabled") {
        Ok(false)
    } else {
        Err(SettingError::NotOnOff { value: value.to_owned() })
    }
}

/// A number from 0 to `max`.
pub open spec fn bounded_byte(value: Seq<char>, max: u8) -> Result<u8, Fault> {
    match number::unsigned(text::trimmed(value)) {
        Some(n) if n <= 255 => if n <= max {
            Ok(n as u8)
        } else {
            Err(Fault::OutOfRange { n: n as int, lo: 0, hi: max as int })
        },
        _ => Err(Fault::NotInteger { value, lo: 0, hi: max as int }),
    }
}

/// Parses a number from 0 to `max`.
pub fn parse_u8_max(value: &str, max: u8) -> (r: Result<u8, SettingError>)
    ensures
        error::agrees(r, bounded_byte(value@, max)),
{
    match number::read_unsigned(&text::trim(&text::chars_of(value)), 255) {
        Some(n) => {
            if n <= max as u128 {
                Ok(n as u8)
            } else {
                Err(SettingError::OutOfRange { n: n as i16, lo: 0, hi: max as i16 })
            }
        },
        None => Err(
            SettingError::NotInteger { value: value.to_owned(), lo: 0, hi: max as i16 },
        ),
    }
}

/// A number from `lo` to `hi`.
pub open spec fn bounded_i8(value: Seq<char>, lo: int, hi: int) -> Result<i8, Fault> {
    match number::signed(text::trimmed(value)) {
        Some(n) if -128 <= n <= 127 => if lo <= n <= hi {
            Ok(n as i8)
        } else {
            Err(Fault::OutOfRange { n, lo, hi })
        },
        _ => Err(Fault::NotInteger { value, lo, hi }),
    }
}

/// Parses a number from `lo` to `hi`.
pub fn parse_i8_range(value: &str, lo: i8, hi: i8) -> (r: Result<i8, SettingError>)
    ensures
        error::agrees(r, bounded_i8(value@, lo as int, hi as int)),
{
    match number::read_i8(&text::trim(&text::chars_of(value))) {
        Some(n) => {
            if lo <= n && n <= hi {
                Ok(n)
            } else {
                Err(SettingError::OutOfRange { n: n as i16, lo: lo as i16, hi: hi as i16 })
            }
        },
        None => Err(
            SettingError::NotInteger {
                value: value.to_owned(),
                lo: lo as i16,
                hi: hi as i16,
            },
        ),
    }
}

/// A gain from -8.0 to +6.0 dB, in tenths.
pub open spec fn db_tenths(value: Seq<char>) -> Result<i16, Fault> {
    match decibel::gain(text::trimmed(value)) {
        Some(Reading::Tenths(t)) => Ok(t),
        Some(Reading::OutOfRange) => Err(Fault::GainOutOfRange { value }),
        None => Err(Fault::NotDecibels { value }),
    }
}

/// Parses a gain in decibels into tenths, within -8.0 to +6.0 dB.
pub fn parse_db_tenths(value: &str) -> (r: Result<i16, SettingError>)
    ensures
        error::agrees(r, db_tenths(value@)),
{
    match decibel::read_gain(&text::trim(&text::chars_of(value))) {
        Some(Reading::Tenths(t)) => Ok(t),
        Some(Reading::OutOfRange) => Err(SettingError::GainOutOfRange { value: value.to_owned() }),
        None => Err(SettingError::NotDecibels { value: value.to_owned() }),
    }
}

/// An accepted gain is a decimal number, and lies within the range of an
/// equalizer band.
pub proof fn accepted_gain_is_in_range(value: Seq<char>)
    ensures
        db_tenths(value) matches Ok(t) ==> -80 <= t <= 60 && decibel::magnitude(
            decibel::unsigned_part(text::trimmed(value)),
        ) is Some,
{
}

/// Whether `c` is a hexadecimal digit.
pub open spec fn is_hex(c: char) -> bool {
    '0' <= c <= '9' || 'a' <= c <= 'f' || 'A' <= c <= 'F'
}

/// What a hexadecimal digit stands for.
pub open spec fn hex_value(c: char) -> int {
    if '0' <= c <= '9' {
        c as int - 48
    } else if 'a' <= c <= 'f' {
        c as int - 87
    } else {
        c as int - 55
    }
}

/// `s` without the `#` characters that it starts with.
pub open spec fn unhashed(s: Seq<char>) -> Seq<char>
    decreases s.len(),
{
    if s.len() > 0 && s[0] == '#' {
        unhashed(s.drop_first())
    } else {
        s
    }
}

/// The parts of `s` between its commas.
pub open spec fn parts(s: Seq<char>) -> Seq<Seq<char>>
    decreases s.len(),
{
    if s.len() == 0 {
        seq![Seq::empty()]
    } else {
        let before = parts(s.drop_last());
        if s.last() == ',' {
            before.push(Seq::empty())
        } else {
            before.drop_last().push(before.last().push(s.last()))
        }
    }
}

/// The color that `s` writes as six hexadecimal digits.
pub open spec fn hex_color(s: Seq<char>) -> [u8; 3] {
    [
        (hex_value(s[0]) * 16 + hex_value(s[1])) as u8,
        (hex_value(s[2]) * 16 + hex_value(s[3])) as u8,
        (hex_value(s[4]) * 16 + hex_value(s[5])) as u8,
    ]
}

/// The color that three decimal numbers write.
pub open spec fn decimal_color(list: Seq<Seq<char>>) -> Result<[u8; 3], Fault> {
    match number::byte_of(text::trimmed(list[0])) {
        Err(fault) => Err(Fault::BadComponent { fault }),
        Ok(r) => match number::byte_of(text::trimmed(list[1])) {
            Err(fault) => Err(Fault::BadComponent { fault }),
            Ok(g) => match number::byte_of(text::trimmed(list[2])) {
                Err(fault) => Err(Fault::BadComponent { fault }),
                Ok(b) => Ok([r, g, b]),
            },
        },
    }
}

/// A color: six hexadecimal digits, with any `#` before them, or three decimal
/// numbers with commas between them.
pub open spec fn color(value: Seq<char>) -> Result<[u8; 3], Fault> {
    let v = unhashed(text::trimmed(value));
    if v.len() == 6 && (forall|i: int| 0 <= i < 6 ==> is_hex(#[trigger] v[i])) {
        Ok(hex_color(v))
    } else if parts(v).len() == 3 {
        decimal_color(parts(v))
    } else {
        Err(Fault::BadColor { value })
    }
}

fn hex_digit(c: char) -> (d: Option<u8>)
    ensures
        d is Some <==> is_hex(c),
        d matches Some(d) ==> d == hex_value(c) && d < 16,
{
    if '0' <= c && c <= '9' {
        Some(c as u8 - 48)
    } else if 'a' <= c && c <= 'f' {
        Some(c as u8 - 87)
    } else if 'A' <= c && c <= 'F' {
        Some(c as u8 - 55)
    } else {
        None
    }
}

fn drop_hashes(chars: &Vec<char>) -> (rest: Vec<char>)
    ensures
        rest@ == unhashed(chars@),
{
    let mut i: usize = 0;
    proof {
        assert(chars@.skip(0) =~= chars@);
    }
    while i < chars.len() && chars[i] == '#'
        invariant
            i <= chars@.len(),
            unhashed(chars@) == unhashed(chars@.skip(i as int)),
        decreases chars@.len() - i,
    {
        proof {
            assert(chars@.skip(i as int).drop_first() =~= chars@.skip(i + 1));
        }
        i += 1;
    }
    proof {
        assert(chars@.skip(i as int) =~= chars@.subrange(i as int, chars@.len() as int));
    }
    text::part(chars, i, chars.len())
}

/// The views of a list of texts.
spec fn texts(list: Seq<Vec<char>>) -> Seq<Seq<char>> {
    list.map_values(|v: Vec<char>| v@)
}

fn split(chars: &Vec<char>) -> (list: Vec<Vec<char>>)
    ensures
        texts(list@) == parts(chars@),
{
    let mut list: Vec<Vec<char>> = Vec::new();
    let mut last: Vec<char> = Vec::new();
    proof {
        assert(texts(list@).push(last@) =~= parts(chars@.take(0)));
    }
    for i in 0..chars.len()
        invariant
            texts(list@).push(last@) == parts(chars@.take(i as int)),
    {
        let c = chars[i];
        let ghost before = texts(list@).push(last@);
        proof {
            assert(chars@.take(i + 1).drop_last() =~= chars@.take(i as int));
        }
        if c == ',' {
            list.push(last);
            last = Vec::new();
            proof {
                assert(texts(list@).push(last@) =~= before.push(Seq::empty()));
            }
        } else {
            last.push(c);
            proof {
                assert(texts(list@).push(last@) =~= before.drop_last().push(before.last().push(c)));
            }
        }
    }
    proof {
        assert(chars@.take(chars@.len() as int) =~= chars@);
    }
    let ghost whole = texts(list@).push(last@);
    list.push(last);
    proof {
        assert(texts(list@) =~= whole);
    }
    list
}

/// The six digits of a hexadecimal color.
fn read_hex_color(chars: &Vec<char>) -> (color: Option<[u8; 3]>)
    ensures
        color == (if chars@.len() == 6 && (forall|i: int| 0 <= i < 6 ==> is_hex(#[trigger] chars@[i])) {
            Some(hex_color(chars@))
        } else {
            None
        }),
{
    if chars.len() != 6 {
        return None;
    }
    match (
        hex_digit(chars[0]),
        hex_digit(chars[1]),
        hex_digit(chars[2]),
        hex_digit(chars[3]),
        hex_digit(chars[4]),
        hex_digit(chars[5]),
    ) {
        (Some(a), Some(b), Some(c), Some(d), Some(e), Some(f)) => {
            proof {
                assert(chars@.len() == 6);
            }
            Some([a * 16 + b, c * 16 + d, e * 16 + f])
        },
        _ => {
            proof {
                if forall|i: int| 0 <= i < 6 ==> is_hex(#[trigger] chars@[i]) {
                    assert(is_hex(chars@[0]) && is_hex(chars@[1]) && is_hex(chars@[2]));
                    assert(is_hex(chars@[3]) && is_hex(chars@[4]) && is_hex(chars@[5]));
                }
            }
            None
        },
    }
}

/// Parses a color: six hexadecimal digits, with any `#` before them, or three
/// decimal numbers with commas between them.
pub fn parse_rgb(value: &str) -> (r: Result<[u8; 3], SettingError>)
    ensures
        error::agrees(r, color(value@)),
{
    let v = drop_hashes(&text::trim(&text::chars_of(value)));
    match read_hex_color(&v) {
        Some(rgb) => {
            return Ok(rgb);
        },
        None => {},
    }
    let list = split(&v);
    proof {
        assert(texts(list@).len() == list@.len());
    }
    if list.len() != 3 {
        return Err(SettingError::BadColor { value: value.to_owned() });
    }
    proof {
        assert(parts(v@)[0] == list@[0]@ && parts(v@)[1] == list@[1]@ && parts(v@)[2]
            == list@[2]@);
    }
    let r = match number::read_byte(&text::trim(&list[0])) {
        Ok(n) => n,
        Err(fault) => {
            return Err(SettingError::BadComponent { fault });
        },
    };
    let g = match number::read_byte(&text::trim(&list[1])) {
        Ok(n) => n,
        Err(fault) => {
            return Err(SettingError::BadComponent { fault });
        },
    };
    let b = match number::read_byte(&text::trim(&list[2])) {
        Ok(n) => n,
        Err(fault) => {
            return Err(SettingError::BadComponent { fault });
        },
    };
    Ok([r, g, b])
}

/// The value that a word stands for, in any case and with white space around
/// it.
pub open spec fn token<T: Token>(value: Seq<char>) -> Result<T, Fault> {
    match T::named(text::lowered(text::trimmed(value))) {
        Some(t) => Ok(t),
        None => Err(Fault::BadToken { value, kind: T::kind() }),
    }
}

/// The word for a value reads back as that value.
pub proof fn token_reads_back<T: Token>(value: T)
    ensures
        token::<T>(value.spelled()) == Ok::<T, Fault>(value),
{
    value.spelled_is_plain();
    value.spelled_is_named();
}

/// Parses a word for a setting value.
pub fn parse_token<T: Token>(value: &str) -> (r: Result<T, SettingError>)
    ensures
        error::agrees(r, token::<T>(value@)),
{
    let word = text::text_of(&text::to_lower(&text::trim(&text::chars_of(value))));
    match T::from_word(word.as_str()) {
        Some(t) => Ok(t),
        None => Err(SettingError::BadToken { value: value.to_owned(), kind: T::token_kind() }),
    }
}

/// The index of a preset slot, which users count from one.
pub open spec fn index_of_slot(slot: int) -> Result<usize, Fault> {
    if 1 <= slot <= PRESET_COUNT {
        Ok((slot - 1) as usize)
    } else {
        Err(Fault::BadSlot { slot })
    }
}

/// Checks the number of a preset slot and turns it into an index.
pub fn slot_index(slot: usize) -> (r: Result<usize, SettingError>)
    ensures
        error::agrees(r, index_of_slot(slot as int)),
{
    if 1 <= slot && slot <= PRESET_COUNT {
        Ok(slot - 1)
    } else {
        Err(SettingError::BadSlot { slot })
    }
}

/// The model that a word names, in any case and with either separator.
pub open spec fn model_named(s: Seq<char>) -> Result<DeviceModel, Fault> {
    let word = s.map_values(|c: char| fold(c));
    if word == "mvx2u"@ {
        Ok(DeviceModel::Mvx2u)
    } else if word == "mvx2u-gen2"@ || word == "mvx2ugen2"@ {
        Ok(DeviceModel::Mvx2uGen2)
    } else if word == "mv6"@ {
        Ok(DeviceModel::Mv6)
    } else if word == "mv7plus"@ || word == "mv7+"@ {
        Ok(DeviceModel::Mv7Plus)
    } else {
        Err(Fault::BadModel { word })
    }
}

/// Parses the name of the model to demonstrate.
pub fn parse_demo_model(s: &str) -> (r: Result<DeviceModel, SettingError>)
    ensures
        error::agrees(r, model_named(s@)),
{
    let chars = text::to_hyphens(&text::to_lower(&text::chars_of(s)));
    proof {
        assert(chars@ =~= s@.map_values(|c: char| fold(c)));
    }
    let word = text::text_of(&chars);
    let w = word.as_str();
    if text::same_text(w, "mvx2u") {
        Ok(DeviceModel::Mvx2u)
    } else if text::same_text(w, "mvx2u-gen2") || text::same_text(w, "mvx2ugen2") {
        Ok(DeviceModel::Mvx2uGen2)
    } else if text::same_text(w, "mv6") {
        Ok(DeviceModel::Mv6)
    } else if text::same_text(w, "mv7plus") || text::same_text(w, "mv7+") {
        Ok(DeviceModel::Mv7Plus)
    } else {
        Err(SettingError::BadModel { word })
    }
}

/// Bringing a name into its form changes letters to lower case and underscores to
/// hyphens, one by one, and no other character.
pub proof fn normalize_changes_case_and_separators_only(s: Seq<char>, i: int)
    requires
        0 <= i < text::trimmed(s).len(),
    ensures
        normalized(s).len() == text::trimmed(s).len(),
        ({
            let c = text::trimmed(s)[i];
            let k = normalized(s)[i];
            if 65 <= c as u32 <= 90 {
                k as u32 == c as u32 + 32
            } else if c as u32 == 95 {
                k as u32 == 45
            } else {
                k == c
            }
        }),
{
}

/// The ten words of a switch, and no others, switch it; in any case and with white
/// space around them.
pub proof fn switches_have_ten_words(v: Seq<char>)
    ensures
        ({
            let w = text::lowered(text::trimmed(v));
            &&& on_off(v) == Ok::<bool, Fault>(true) <==> w == "on"@ || w == "true"@ || w == "1"@
                || w == "yes"@ || w == "enabled"@
            &&& on_off(v) == Ok::<bool, Fault>(false) <==> w == "off"@ || w == "false"@ || w == "0"@
                || w == "no"@ || w == "disabled"@
            &&& on_off(v) matches Err(fault) ==> fault == (Fault::NotOnOff { value: v })
        }),
{
    reveal_strlit("on");
    reveal_strlit("true");
    reveal_strlit("1");
    reveal_strlit("yes");
    reveal_strlit("enabled");
    reveal_strlit("off");
    reveal_strlit("false");
    reveal_strlit("0");
    reveal_strlit("no");
    reveal_strlit("disabled");
    assert("on"@.len() == 2 && "true"@.len() == 4 && "1"@.len() == 1 && "yes"@.len() == 3
        && "enabled"@.len() == 7);
    assert("off"@.len() == 3 && "false"@.len() == 5 && "0"@.len() == 1 && "no"@.len() == 2
        && "disabled"@.len() == 8);
    assert("on"@[1] != "no"@[1]);
    assert("1"@[0] != "0"@[0]);
    assert("yes"@[0] != "off"@[0]);
}

proof fn lemma_decimal_is_plain(n: nat)
    ensures
        text::trimmed(text::decimal(n)) == text::decimal(n),
        forall|i: int|
            0 <= i < text::decimal(n).len() ==> number::is_digit(#[trigger] text::decimal(n)[i]),
        text::decimal(n).len() > 0,
{
    let d = text::decimal(n);
    number::decimal_reads_back(n as int);
    assert(d.len() > 0);
    assert forall|i: int| 0 <= i < d.len() implies number::is_digit(#[trigger] d[i]) by {
        number::numbers_are_written_in_digits(d, i);
        lemma_decimal_starts_with_digit(n);
        assert(d[i] as u32 >= 48 && d[i] as u32 <= 57);
    }
    assert(number::is_digit(d[0]) && number::is_digit(d[d.len() - 1]));
}

proof fn lemma_decimal_starts_with_digit(n: nat)
    ensures
        text::decimal(n).len() > 0,
        number::is_digit(text::decimal(n)[0]),
    decreases n,
{
    if n >= 10 {
        lemma_decimal_starts_with_digit(n / 10);
    }
}

/// Every number from 0 to the bound is accepted, every other up to 255 is out of
/// range, and what is accepted is within the bound.
pub proof fn numbers_up_to_the_bound_are_accepted(n: nat, max: u8, v: Seq<char>)
    ensures
        n <= max ==> bounded_byte(text::decimal(n), max) == Ok::<u8, Fault>(n as u8),
        max < n <= 255 ==> bounded_byte(text::decimal(n), max) == Err::<u8, Fault>(
            Fault::OutOfRange { n: n as int, lo: 0, hi: max as int },
        ),
        bounded_byte(v, max) matches Ok(k) ==> k <= max && number::unsigned(text::trimmed(v))
            == Some(k as nat),
{
    lemma_decimal_is_plain(n);
    number::decimal_reads_back(n as int);
}

/// Every number between the bounds is accepted, every other from -128 to 127 is
/// out of range, and what is accepted is between the bounds.
pub proof fn numbers_between_the_bounds_are_accepted(n: int, lo: i8, hi: i8, v: Seq<char>)
    ensures
        lo <= n <= hi ==> bounded_i8(text::signed_decimal(n), lo as int, hi as int) == Ok::<
            i8,
            Fault,
        >(n as i8),
        -128 <= n <= 127 && !(lo <= n <= hi) ==> bounded_i8(
            text::signed_decimal(n),
            lo as int,
            hi as int,
        ) == Err::<i8, Fault>(Fault::OutOfRange { n, lo: lo as int, hi: hi as int }),
        bounded_i8(v, lo as int, hi as int) matches Ok(k) ==> lo <= k <= hi && number::signed(
            text::trimmed(v),
        ) == Some(k as int),
{
    number::decimal_reads_back(n);
    let size = if n < 0 {
        (-n) as nat
    } else {
        n as nat
    };
    lemma_decimal_is_plain(size);
    let s = text::signed_decimal(n);
    if n < 0 {
        let d = text::decimal(size);
        assert(s =~= seq!['-'] + d);
        assert(s.first() == '-' && s.last() == d[d.len() - 1]);
        assert(number::is_digit(d[d.len() - 1]));
        assert(text::trimmed(s) == s);
    }
}

proof fn lemma_parts_grow(a: Seq<char>, b: Seq<char>)
    requires
        forall|i: int| 0 <= i < b.len() ==> #[trigger] b[i] != ',',
    ensures
        parts(a).len() > 0,
        parts(a + b) == parts(a).drop_last().push(parts(a).last() + b),
    decreases b.len(),
{
    lemma_parts_exist(a);
    if b.len() == 0 {
        assert(a + b =~= a);
        assert(parts(a).last() + b =~= parts(a).last());
        assert(parts(a).drop_last().push(parts(a).last()) =~= parts(a));
    } else {
        let c = b.drop_last();
        assert((a + b).drop_last() =~= a + c);
        assert((a + b).last() == b[b.len() - 1]);
        lemma_parts_grow(a, c);
        let before = parts(a).drop_last().push(parts(a).last() + c);
        assert(before.drop_last() =~= parts(a).drop_last());
        assert((parts(a).last() + c).push(b.last()) =~= parts(a).last() + b);
    }
}

proof fn lemma_parts_exist(a: Seq<char>)
    ensures
        parts(a).len() > 0,
    decreases a.len(),
{
    if a.len() > 0 {
        lemma_parts_exist(a.drop_last());
    }
}

/// A color reads back from its three numbers in decimal, in their order.
pub proof fn decimal_color_reads_back(r: u8, g: u8, b: u8)
    ensures
        color(
            text::decimal(r as nat) + seq![','] + text::decimal(g as nat) + seq![',']
                + text::decimal(b as nat),
        ) == Ok::<[u8; 3], Fault>([r, g, b]),
{
    let x = text::decimal(r as nat);
    let y = text::decimal(g as nat);
    let z = text::decimal(b as nat);
    lemma_decimal_is_plain(r as nat);
    lemma_decimal_is_plain(g as nat);
    lemma_decimal_is_plain(b as nat);
    number::decimal_reads_back(r as int);
    number::decimal_reads_back(g as int);
    number::decimal_reads_back(b as int);
    number::components_are_numbers(x);
    number::components_are_numbers(y);
    number::components_are_numbers(z);
    let none = Seq::<char>::empty();
    let s1 = x + seq![','];
    let s2 = s1 + y;
    let s3 = s2 + seq![','];
    let s = s3 + z;
    assert(number::is_digit(x[0]) && number::is_digit(z[z.len() - 1]));
    assert(s.first() == x[0] && s.last() == z[z.len() - 1]);
    assert(text::trimmed(s) == s);
    assert(unhashed(s) == s);
    assert(s[x.len() as int] == ',');
    assert(!is_hex(s[x.len() as int]));
    lemma_parts_grow(none, x);
    assert(none + x =~= x);
    assert(parts(none) =~= seq![none]);
    assert(parts(x) =~= seq![x]);
    assert(s1.drop_last() =~= x && s1.last() == ',');
    assert(parts(s1) =~= seq![x, none]);
    lemma_parts_grow(s1, y);
    assert(none + y =~= y);
    assert(parts(s2) =~= seq![x, y]);
    assert(s3.drop_last() =~= s2 && s3.last() == ',');
    assert(parts(s3) =~= seq![x, y, none]);
    lemma_parts_grow(s3, z);
    assert(none + z =~= z);
    assert(parts(s) =~= seq![x, y, z]);
}

/// Whether two hexadecimal digits, in either case, write a byte.
pub open spec fn writes_byte(high: char, low: char, b: u8) -> bool {
    text::lower(high) == text::lower(text::hex_char(b as int / 16)) && text::lower(low)
        == text::lower(text::hex_char(b as int % 16))
}

proof fn lemma_writes_byte(high: char, low: char, b: u8)
    requires
        is_hex(high),
        is_hex(low),
        b == (hex_value(high) * 16 + hex_value(low)) as u8,
    ensures
        writes_byte(high, low, b),
{
    let h = hex_value(high);
    let l = hex_value(low);
    assert(0 <= h < 16 && 0 <= l < 16);
    assert(b as int / 16 == h && b as int % 16 == l);
}

/// An accepted color was written either as six hexadecimal digits, which are its
/// bytes in order and in either case, or as three numbers, which are its bytes in
/// order.
pub proof fn accepted_color_was_written(s: Seq<char>)
    ensures
        color(s) matches Ok(rgb) ==> ({
            let v = unhashed(text::trimmed(s));
            ||| v.len() == 6 && writes_byte(v[0], v[1], rgb[0]) && writes_byte(v[2], v[3], rgb[1])
                && writes_byte(v[4], v[5], rgb[2])
            ||| parts(v).len() == 3 && number::unsigned(text::trimmed(parts(v)[0])) == Some(
                rgb[0] as nat,
            ) && number::unsigned(text::trimmed(parts(v)[1])) == Some(rgb[1] as nat)
                && number::unsigned(text::trimmed(parts(v)[2])) == Some(rgb[2] as nat)
        }),
{
    if let Ok(rgb) = color(s) {
        let v = unhashed(text::trimmed(s));
        if v.len() == 6 && (forall|i: int| 0 <= i < 6 ==> is_hex(#[trigger] v[i])) {
            lemma_writes_byte(v[0], v[1], rgb[0]);
            lemma_writes_byte(v[2], v[3], rgb[1]);
            lemma_writes_byte(v[4], v[5], rgb[2]);
        } else {
            number::components_are_numbers(text::trimmed(parts(v)[0]));
            number::components_are_numbers(text::trimmed(parts(v)[1]));
            number::components_are_numbers(text::trimmed(parts(v)[2]));
        }
    }
}

/// Slots one to four are the presets in order; there are no others.
pub proof fn slots_are_one_to_four(slot: int)
    ensures
        index_of_slot(slot) is Ok <==> slot == 1 || slot == 2 || slot == 3 || slot == 4,
        index_of_slot(slot) matches Ok(i) ==> i + 1 == slot,
        index_of_slot(slot) matches Err(fault) ==> fault == (Fault::BadSlot { slot }),
{
}

/// The models to demonstrate go by these names, in any case and with either
/// separator, and by no others.
pub proof fn models_go_by_their_names(s: Seq<char>, model: DeviceModel)
    ensures
        ({
            let w = s.map_values(
                |c: char|
                    if c == '_' {
                        '-'
                    } else {
                        text::lower(c)
                    },
            );
            model_named(s) == Ok::<DeviceModel, Fault>(model) <==> match model {
                DeviceModel::Mvx2u => w == "mvx2u"@,
                DeviceModel::Mvx2uGen2 => w == "mvx2u-gen2"@ || w == "mvx2ugen2"@,
                DeviceModel::Mv6 => w == "mv6"@,
                DeviceModel::Mv7Plus => w == "mv7plus"@ || w == "mv7+"@,
            }
        }),
{
    let w = s.map_values(
        |c: char|
            if c == '_' {
                '-'
            } else {
                text::lower(c)
            },
    );
    assert(w =~= s.map_values(|c: char| fold(c)));
    reveal_strlit("mvx2u");
    reveal_strlit("mvx2u-gen2");
    reveal_strlit("mvx2ugen2");
    reveal_strlit("mv6");
    reveal_strlit("mv7plus");
    reveal_strlit("mv7+");
}

/// Only `#` characters are taken off the front of a color, and all of them: `k`
/// of them.
pub proof fn hashes_are_taken_off(s: Seq<char>) -> (k: int)
    ensures
        0 <= k <= s.len(),
        unhashed(s) == s.skip(k),
        forall|i: int| 0 <= i < k ==> #[trigger] s[i] == '#',
        k < s.len() ==> s[k] != '#',
    decreases s.len(),
{
    if s.len() > 0 && s[0] == '#' {
        let rest = s.drop_first();
        let k = hashes_are_taken_off(rest);
        assert(rest.skip(k) =~= s.skip(k + 1));
        assert forall|i: int| 0 <= i < k + 1 implies #[trigger] s[i] == '#' by {
            if i > 0 {
                assert(rest[i - 1] == '#');
            }
        }
        k + 1
    } else {
        assert(s.skip(0) =~= s);
        0
    }
}

/// Texts with a comma after each but the last.
pub open spec fn with_commas(list: Seq<Seq<char>>) -> Seq<char>
    decreases list.len(),
{
    if list.len() == 0 {
        Seq::empty()
    } else if list.len() == 1 {
        list[0]
    } else {
        with_commas(list.drop_last()) + seq![','] + list.last()
    }
}

/// The parts between commas hold no comma, and give the text back with commas
/// between them.
pub proof fn parts_stand_between_commas(s: Seq<char>, i: int)
    requires
        0 <= i < parts(s).len(),
    ensures
        !parts(s)[i].contains(','),
        with_commas(parts(s)) == s,
    decreases s.len(),
{
    lemma_parts_exist(s);
    if s.len() > 0 {
        let before = parts(s.drop_last());
        lemma_parts_exist(s.drop_last());
        let j = if i < before.len() {
            i
        } else {
            before.len() - 1
        };
        parts_stand_between_commas(s.drop_last(), j);
        let now = parts(s);
        assert(s.drop_last().push(s.last()) =~= s);
        if s.last() == ',' {
            assert(now.drop_last() =~= before);
            assert(with_commas(before) + seq![','] + Seq::<char>::empty() =~= s);
        } else {
            let last = before.last();
            assert(now.drop_last() =~= before.drop_last());
            assert(now.last() == last.push(s.last()));
            if now.len() > 1 {
                let head = with_commas(before.drop_last()) + seq![','];
                assert(head + last.push(s.last()) =~= (head + last).push(s.last()));
            }
            if i == now.len() - 1 {
                assert(j == before.len() - 1);
                assert forall|k: int| 0 <= k < now[i].len() implies #[trigger] now[i][k] != ',' by {
                    if k < last.len() {
                        assert(last.contains(last[k]));
                    }
                }
            }
        }
    }
}

} // verus!
