//! The words for setting values, as users write them and presets store them.

use vstd::prelude::*;

use crate::protocol::{
    AutoGain, AutoTone, CompressorPreset, HpfFrequency, InputMode, LedBehavior, LedBrightness,
    LedLiveTheme, LedPulsingTheme, LedSolidTheme, MicPosition, ReverbType,
};
use crate::text;

verus! {

/// The values that one kind of setting chooses from.
#[derive(Clone, Copy, PartialEq, Eq, Structural, Debug)]
pub enum TokenKind {
    InputMode,
    MicPosition,
    AutoTone,
    AutoGain,
    CompressorPreset,
    HpfFrequency,
    ReverbType,
    LedBehavior,
    LedBrightness,
    LedLiveTheme,
    LedSolidTheme,
    LedPulsingTheme,
}

/// The words of a kind, in the order in which they are listed.
pub open spec fn words(kind: TokenKind) -> Seq<Seq<char>> {
    match kind {
        TokenKind::InputMode => seq!["auto"@, "manual"@],
        TokenKind::MicPosition => seq!["near"@, "far"@],
        TokenKind::AutoTone => seq!["dark"@, "natural"@, "bright"@],
        TokenKind::AutoGain => seq!["quiet"@, "normal"@, "loud"@],
        TokenKind::CompressorPreset => seq!["off"@, "light"@, "medium"@, "heavy"@],
        TokenKind::HpfFrequency => seq!["off"@, "hz75"@, "hz150"@],
        TokenKind::ReverbType => seq!["plate"@, "hall"@, "studio"@],
        TokenKind::LedBehavior => seq!["live"@, "pulsing"@, "solid"@],
        TokenKind::LedBrightness => seq!["low"@, "med"@, "high"@, "max"@],
        TokenKind::LedLiveTheme => seq!["default"@, "seaside"@, "space"@, "fruity"@, "custom"@],
        TokenKind::LedSolidTheme => seq!["shure"@, "custom"@],
        TokenKind::LedPulsingTheme => seq!["shure"@, "custom"@],
    }
}

/// The words of a kind, in the order in which they are listed.
pub fn word_list(kind: TokenKind) -> (list: &'static [&'static str])
    ensures
        list@.len() == words(kind).len(),
        list@.len() > 0,
        forall|i: int| 0 <= i < list@.len() ==> (#[trigger] list@[i])@ == words(kind)[i],
{
    match kind {
        TokenKind::InputMode => &["auto", "manual"],
        TokenKind::MicPosition => &["near", "far"],
        TokenKind::AutoTone => &["dark", "natural", "bright"],
        TokenKind::AutoGain => &["quiet", "normal", "loud"],
        TokenKind::CompressorPreset => &["off", "light", "medium", "heavy"],
        TokenKind::HpfFrequency => &["off", "hz75", "hz150"],
        TokenKind::ReverbType => &["plate", "hall", "studio"],
        TokenKind::LedBehavior => &["live", "pulsing", "solid"],
        TokenKind::LedBrightness => &["low", "med", "high", "max"],
        TokenKind::LedLiveTheme => &["default", "seaside", "space", "fruity", "custom"],
        TokenKind::LedSolidTheme => &["shure", "custom"],
        TokenKind::LedPulsingTheme => &["shure", "custom"],
    }
}

/// A setting value that is written as one word.
pub trait Token: Sized {
    /// The kind of setting that the value belongs to.
    spec fn kind() -> TokenKind;

    /// The word for a value.
    spec fn spelled(self) -> Seq<char>;

    /// The value that a word stands for.
    spec fn named(word: Seq<char>) -> Option<Self>;

    /// The word for a value stands for that value.
    proof fn spelled_is_named(self)
        ensures
            Self::named(self.spelled()) == Some(self),
    ;

    /// A value is named by its own word only.
    proof fn named_is_spelled(word: Seq<char>)
        ensures
            Self::named(word) matches Some(value) ==> value.spelled() == word,
    ;

    /// The words that stand for a value are those listed for its kind.
    proof fn listed(word: Seq<char>)
        ensures
            Self::named(word) is Some <==> words(Self::kind()).contains(word),
    ;

    /// A word is in lower case and has no white space around it.
    proof fn spelled_is_plain(self)
        ensures
            text::lowered(text::trimmed(self.spelled())) == self.spelled(),
    ;

    /// The kind of setting that the value belongs to.
    fn token_kind() -> (kind: TokenKind)
        ensures
            kind == Self::kind(),
    ;

    /// The word for this value.
    fn word(&self) -> (word: &'static str)
        ensures
            word@ == self.spelled(),
    ;

    /// The value that a word stands for.
    fn from_word(word: &str) -> (value: Option<Self>)
        ensures
            value == Self::named(word@),
    ;
}

impl Token for InputMode {
    open spec fn kind() -> TokenKind {
        TokenKind::InputMode
    }

    open spec fn spelled(self) -> Seq<char> {
        match self {
            InputMode::Auto => "auto"@,
            InputMode::Manual => "manual"@,
        }
    }

    open spec fn named(word: Seq<char>) -> Option<Self> {
        if word == "auto"@ {
            Some(InputMode::Auto)
        } else if word == "manual"@ {
            Some(InputMode::Manual)
        } else {
            None
        }
    }

    proof fn spelled_is_named(self) {
        reveal_strlit("auto");
        reveal_strlit("manual");
        assert("auto"@.len() != "manual"@.len());
    }

    proof fn named_is_spelled(word: Seq<char>) {
    }

    proof fn listed(word: Seq<char>) {
        let list = words(TokenKind::InputMode);
        assert(list[0] == "auto"@);
        assert(list[1] == "manual"@);
    }

    proof fn spelled_is_plain(self) {
        reveal_strlit("auto");
        reveal_strlit("manual");
        text::lemma_plain_word(self.spelled());
    }

    fn token_kind() -> (kind: TokenKind) {
        TokenKind::InputMode
    }

    fn word(&self) -> (word: &'static str) {
        match self {
            InputMode::Auto => "auto",
            InputMode::Manual => "manual",
        }
    }

    fn from_word(word: &str) -> (value: Option<Self>) {
        if text::same_text(word, "auto") {
            Some(InputMode::Auto)
        } else if text::same_text(word, "manual") {
            Some(InputMode::Manual)
        } else {
            None
        }
    }
}

impl Token for MicPosition {
    open spec fn kind() -> TokenKind {
        TokenKind::MicPosition
    }

    open spec fn spelled(self) -> Seq<char> {
        match self {
            MicPosition::Near => "near"@,
            MicPosition::Far => "far"@,
        }
    }

    open spec fn named(word: Seq<char>) -> Option<Self> {
        if word == "near"@ {
            Some(MicPosition::Near)
        } else if word == "far"@ {
            Some(MicPosition::Far)
        } else {
            None
        }
    }

    proof fn spelled_is_named(self) {
        reveal_strlit("near");
        reveal_strlit("far");
        assert("near"@.len() != "far"@.len());
    }

    proof fn named_is_spelled(word: Seq<char>) {
    }

    proof fn listed(word: Seq<char>) {
        let list = words(TokenKind::MicPosition);
        assert(list[0] == "near"@);
        assert(list[1] == "far"@);
    }

    proof fn spelled_is_plain(self) {
        reveal_strlit("near");
        reveal_strlit("far");
        text::lemma_plain_word(self.spelled());
    }

    fn token_kind() -> (kind: TokenKind) {
        TokenKind::MicPosition
    }

    fn word(&self) -> (word: &'static str) {
        match self {
            MicPosition::Near => "near",
            MicPosition::Far => "far",
        }
    }

    fn from_word(word: &str) -> (value: Option<Self>) {
        if text::same_text(word, "near") {
            Some(MicPosition::Near)
        } else if text::same_text(word, "far") {
            Some(MicPosition::Far)
        } else {
            None
        }
    }
}

impl Token for AutoTone {
    open spec fn kind() -> TokenKind {
        TokenKind::AutoTone
    }

    open spec fn spelled(self) -> Seq<char> {
        match self {
            AutoTone::Dark => "dark"@,
            AutoTone::Natural => "natural"@,
            AutoTone::Bright => "bright"@,
        }
    }

    open spec fn named(word: Seq<char>) -> Option<Self> {
        if word == "dark"@ {
            Some(AutoTone::Dark)
        } else if word == "natural"@ {
            Some(AutoTone::Natural)
        } else if word == "bright"@ {
            Some(AutoTone::Bright)
        } else {
            None
        }
    }

    proof fn spelled_is_named(self) {
        reveal_strlit("dark");
        reveal_strlit("natural");
        reveal_strlit("bright");
        assert("dark"@.len() != "natural"@.len());
        assert("dark"@.len() != "bright"@.len());
        assert("natural"@.len() != "bright"@.len());
    }

    proof fn named_is_spelled(word: Seq<char>) {
    }

    proof fn listed(word: Seq<char>) {
        let list = words(TokenKind::AutoTone);
        assert(list[0] == "dark"@);
        assert(list[1] == "natural"@);
        assert(list[2] == "bright"@);
    }

    proof fn spelled_is_plain(self) {
        reveal_strlit("dark");
        reveal_strlit("natural");
        reveal_strlit("bright");
        text::lemma_plain_word(self.spelled());
    }

    fn token_kind() -> (kind: TokenKind) {
        TokenKind::AutoTone
    }

    fn word(&self) -> (word: &'static str) {
        match self {
            AutoTone::Dark => "dark",
            AutoTone::Natural => "natural",
            AutoTone::Bright => "bright",
        }
    }

    fn from_word(word: &str) -> (value: Option<Self>) {
        if text::same_text(word, "dark") {
            Some(AutoTone::Dark)
        } else if text::same_text(word, "natural") {
            Some(AutoTone::Natural)
        } else if text::same_text(word, "bright") {
            Some(AutoTone::Bright)
        } else {
            None
        }
    }
}

impl Token for AutoGain {
    open spec fn kind() -> TokenKind {
        TokenKind::AutoGain
    }

    open spec fn spelled(self) -> Seq<char> {
        match self {
            AutoGain::Quiet => "quiet"@,
            AutoGain::Normal => "normal"@,
            AutoGain::Loud => "loud"@,
        }
    }

    open spec fn named(word: Seq<char>) -> Option<Self> {
        if word == "quiet"@ {
            Some(AutoGain::Quiet)
        } else if word == "normal"@ {
            Some(AutoGain::Normal)
        } else if word == "loud"@ {
            Some(AutoGain::Loud)
        } else {
            None
        }
    }

    proof fn spelled_is_named(self) {
        reveal_strlit("quiet");
        reveal_strlit("normal");
        reveal_strlit("loud");
        assert("quiet"@.len() != "normal"@.len());
        assert("quiet"@.len() != "loud"@.len());
        assert("normal"@.len() != "loud"@.len());
    }

    proof fn named_is_spelled(word: Seq<char>) {
    }

    proof fn listed(word: Seq<char>) {
        let list = words(TokenKind::AutoGain);
        assert(list[0] == "quiet"@);
        assert(list[1] == "normal"@);
        assert(list[2] == "loud"@);
    }

    proof fn spelled_is_plain(self) {
        reveal_strlit("quiet");
        reveal_strlit("normal");
        reveal_strlit("loud");
        text::lemma_plain_word(self.spelled());
    }

    fn token_kind() -> (kind: TokenKind) {
        TokenKind::AutoGain
    }

    fn word(&self) -> (word: &'static str) {
        match self {
            AutoGain::Quiet => "quiet",
            AutoGain::Normal => "normal",
            AutoGain::Loud => "loud",
        }
    }

    fn from_word(word: &str) -> (value: Option<Self>) {
        if text::same_text(word, "quiet") {
            Some(AutoGain::Quiet)
        } else if text::same_text(word, "normal") {
            Some(AutoGain::Normal)
        } else if text::same_text(word, "loud") {
            Some(AutoGain::Loud)
        } else {
            None
        }
    }
}

impl Token for CompressorPreset {
    open spec fn kind() -> TokenKind {
        TokenKind::CompressorPreset
    }

    open spec fn spelled(self) -> Seq<char> {
        match self {
            CompressorPreset::Off => "off"@,
            CompressorPreset::Light => "light"@,
            CompressorPreset::Medium => "medium"@,
            CompressorPreset::Heavy => "heavy"@,
        }
    }

    open spec fn named(word: Seq<char>) -> Option<Self> {
        if word == "off"@ {
            Some(CompressorPreset::Off)
        } else if word == "light"@ {
            Some(CompressorPreset::Light)
        } else if word == "medium"@ {
            Some(CompressorPreset::Medium)
        } else if word == "heavy"@ {
            Some(CompressorPreset::Heavy)
        } else {
            None
        }
    }

    proof fn spelled_is_named(self) {
        reveal_strlit("off");
        reveal_strlit("light");
        reveal_strlit("medium");
        reveal_strlit("heavy");
        assert("off"@.len() != "light"@.len());
        assert("off"@.len() != "medium"@.len());
        assert("light"@.len() != "medium"@.len());
        assert("off"@.len() != "heavy"@.len());
        assert("light"@[0] != "heavy"@[0]);
        assert("medium"@.len() != "heavy"@.len());
    }

    proof fn named_is_spelled(word: Seq<char>) {
    }

    proof fn listed(word: Seq<char>) {
        let list = words(TokenKind::CompressorPreset);
        assert(list[0] == "off"@);
        assert(list[1] == "light"@);
        assert(list[2] == "medium"@);
        assert(list[3] == "heavy"@);
    }

    proof fn spelled_is_plain(self) {
        reveal_strlit("off");
        reveal_strlit("light");
        reveal_strlit("medium");
        reveal_strlit("heavy");
        text::lemma_plain_word(self.spelled());
    }

    fn token_kind() -> (kind: TokenKind) {
        TokenKind::CompressorPreset
    }

    fn word(&self) -> (word: &'static str) {
        match self {
            CompressorPreset::Off => "off",
            CompressorPreset::Light => "light",
            CompressorPreset::Medium => "medium",
            CompressorPreset::Heavy => "heavy",
        }
    }

    fn from_word(word: &str) -> (value: Option<Self>) {
        if text::same_text(word, "off") {
            Some(CompressorPreset::Off)
        } else if text::same_text(word, "light") {
            Some(CompressorPreset::Light)
        } else if text::same_text(word, "medium") {
            Some(CompressorPreset::Medium)
        } else if text::same_text(word, "heavy") {
            Some(CompressorPreset::Heavy)
        } else {
            None
        }
    }
}

impl Token for HpfFrequency {
    open spec fn kind() -> TokenKind {
        TokenKind::HpfFrequency
    }

    open spec fn spelled(self) -> Seq<char> {
        match self {
            HpfFrequency::Off => "off"@,
            HpfFrequency::Hz75 => "hz75"@,
            HpfFrequency::Hz150 => "hz150"@,
        }
    }

    open spec fn named(word: Seq<char>) -> Option<Self> {
        if word == "off"@ {
            Some(HpfFrequency::Off)
        } else if word == "hz75"@ {
            Some(HpfFrequency::Hz75)
        } else if word == "hz150"@ {
            Some(HpfFrequency::Hz150)
        } else {
            None
        }
    }

    proof fn spelled_is_named(self) {
        reveal_strlit("off");
        reveal_strlit("hz75");
        reveal_strlit("hz150");
        assert("off"@.len() != "hz75"@.len());
        assert("off"@.len() != "hz150"@.len());
        assert("hz75"@.len() != "hz150"@.len());
    }

    proof fn named_is_spelled(word: Seq<char>) {
    }

    proof fn listed(word: Seq<char>) {
        let list = words(TokenKind::HpfFrequency);
        assert(list[0] == "off"@);
        assert(list[1] == "hz75"@);
        assert(list[2] == "hz150"@);
    }

    proof fn spelled_is_plain(self) {
        reveal_strlit("off");
        reveal_strlit("hz75");
        reveal_strlit("hz150");
        text::lemma_plain_word(self.spelled());
    }

    fn token_kind() -> (kind: TokenKind) {
        TokenKind::HpfFrequency
    }

    fn word(&self) -> (word: &'static str) {
        match self {
            HpfFrequency::Off => "off",
            HpfFrequency::Hz75 => "hz75",
            HpfFrequency::Hz150 => "hz150",
        }
    }

    fn from_word(word: &str) -> (value: Option<Self>) {
        if text::same_text(word, "off") {
            Some(HpfFrequency::Off)
        } else if text::same_text(word, "hz75") {
            Some(HpfFrequency::Hz75)
        } else if text::same_text(word, "hz150") {
            Some(HpfFrequency::Hz150)
        } else {
            None
        }
    }
}

impl Token for ReverbType {
    open spec fn kind() -> TokenKind {
        TokenKind::ReverbType
    }

    open spec fn spelled(self) -> Seq<char> {
        match self {
            ReverbType::Plate => "plate"@,
            ReverbType::Hall => "hall"@,
            ReverbType::Studio => "studio"@,
        }
    }

    open spec fn named(word: Seq<char>) -> Option<Self> {
        if word == "plate"@ {
            Some(ReverbType::Plate)
        } else if word == "hall"@ {
            Some(ReverbType::Hall)
        } else if word == "studio"@ {
            Some(ReverbType::Studio)
        } else {
            None
        }
    }

    proof fn spelled_is_named(self) {
        reveal_strlit("plate");
        reveal_strlit("hall");
        reveal_strlit("studio");
        assert("plate"@.len() != "hall"@.len());
        assert("plate"@.len() != "studio"@.len());
        assert("hall"@.len() != "studio"@.len());
    }

    proof fn named_is_spelled(word: Seq<char>) {
    }

    proof fn listed(word: Seq<char>) {
        let list = words(TokenKind::ReverbType);
        assert(list[0] == "plate"@);
        assert(list[1] == "hall"@);
        assert(list[2] == "studio"@);
    }

    proof fn spelled_is_plain(self) {
        reveal_strlit("plate");
        reveal_strlit("hall");
        reveal_strlit("studio");
        text::lemma_plain_word(self.spelled());
    }

    fn token_kind() -> (kind: TokenKind) {
        TokenKind::ReverbType
    }

    fn word(&self) -> (word: &'static str) {
        match self {
            ReverbType::Plate => "plate",
            ReverbType::Hall => "hall",
            ReverbType::Studio => "studio",
        }
    }

    fn from_word(word: &str) -> (value: Option<Self>) {
        if text::same_text(word, "plate") {
            Some(ReverbType::Plate)
        } else if text::same_text(word, "hall") {
            Some(ReverbType::Hall)
        } else if text::same_text(word, "studio") {
            Some(ReverbType::Studio)
        } else {
            None
        }
    }
}

impl Token for LedBehavior {
    open spec fn kind() -> TokenKind {
        TokenKind::LedBehavior
    }

    open spec fn spelled(self) -> Seq<char> {
        match self {
            LedBehavior::Live => "live"@,
            LedBehavior::Pulsing => "pulsing"@,
            LedBehavior::Solid => "solid"@,
        }
    }

    open spec fn named(word: Seq<char>) -> Option<Self> {
        if word == "live"@ {
            Some(LedBehavior::Live)
        } else if word == "pulsing"@ {
            Some(LedBehavior::Pulsing)
        } else if word == "solid"@ {
            Some(LedBehavior::Solid)
        } else {
            None
        }
    }

    proof fn spelled_is_named(self) {
        reveal_strlit("live");
        reveal_strlit("pulsing");
        reveal_strlit("solid");
        assert("live"@.len() != "pulsing"@.len());
        assert("live"@.len() != "solid"@.len());
        assert("pulsing"@.len() != "solid"@.len());
    }

    proof fn named_is_spelled(word: Seq<char>) {
    }

    proof fn listed(word: Seq<char>) {
        let list = words(TokenKind::LedBehavior);
        assert(list[0] == "live"@);
        assert(list[1] == "pulsing"@);
        assert(list[2] == "solid"@);
    }

    proof fn spelled_is_plain(self) {
        reveal_strlit("live");
        reveal_strlit("pulsing");
        reveal_strlit("solid");
        text::lemma_plain_word(self.spelled());
    }

    fn token_kind() -> (kind: TokenKind) {
        TokenKind::LedBehavior
    }

    fn word(&self) -> (word: &'static str) {
        match self {
            LedBehavior::Live => "live",
            LedBehavior::Pulsing => "pulsing",
            LedBehavior::Solid => "solid",
        }
    }

    fn from_word(word: &str) -> (value: Option<Self>) {
        if text::same_text(word, "live") {
            Some(LedBehavior::Live)
        } else if text::same_text(word, "pulsing") {
            Some(LedBehavior::Pulsing)
        } else if text::same_text(word, "solid") {
            Some(LedBehavior::Solid)
        } else {
            None
        }
    }
}

impl Token for LedBrightness {
    open spec fn kind() -> TokenKind {
        TokenKind::LedBrightness
    }

    open spec fn spelled(self) -> Seq<char> {
        match self {
            LedBrightness::Low => "low"@,
            LedBrightness::Med => "med"@,
            LedBrightness::High => "high"@,
            LedBrightness::Max => "max"@,
        }
    }

    open spec fn named(word: Seq<char>) -> Option<Self> {
        if word == "low"@ {
            Some(LedBrightness::Low)
        } else if word == "med"@ {
            Some(LedBrightness::Med)
        } else if word == "high"@ {
            Some(LedBrightness::High)
        } else if word == "max"@ {
            Some(LedBrightness::Max)
        } else {
            None
        }
    }

    proof fn spelled_is_named(self) {
        reveal_strlit("low");
        reveal_strlit("med");
        reveal_strlit("high");
        reveal_strlit("max");
        assert("low"@[0] != "med"@[0]);
        assert("low"@.len() != "high"@.len());
        assert("med"@.len() != "high"@.len());
        assert("low"@[0] != "max"@[0]);
        assert("med"@[1] != "max"@[1]);
        assert("high"@.len() != "max"@.len());
    }

    proof fn named_is_spelled(word: Seq<char>) {
    }

    proof fn listed(word: Seq<char>) {
        let list = words(TokenKind::LedBrightness);
        assert(list[0] == "low"@);
        assert(list[1] == "med"@);
        assert(list[2] == "high"@);
        assert(list[3] == "max"@);
    }

    proof fn spelled_is_plain(self) {
        reveal_strlit("low");
        reveal_strlit("med");
        reveal_strlit("high");
        reveal_strlit("max");
        text::lemma_plain_word(self.spelled());
    }

    fn token_kind() -> (kind: TokenKind) {
        TokenKind::LedBrightness
    }

    fn word(&self) -> (word: &'static str) {
        match self {
            LedBrightness::Low => "low",
            LedBrightness::Med => "med",
            LedBrightness::High => "high",
            LedBrightness::Max => "max",
        }
    }

    fn from_word(word: &str) -> (value: Option<Self>) {
        if text::same_text(word, "low") {
            Some(LedBrightness::Low)
        } else if text::same_text(word, "med") {
            Some(LedBrightness::Med)
        } else if text::same_text(word, "high") {
            Some(LedBrightness::High)
        } else if text::same_text(word, "max") {
            Some(LedBrightness::Max)
        } else {
            None
        }
    }
}

impl Token for LedLiveTheme {
    open spec fn kind() -> TokenKind {
        TokenKind::LedLiveTheme
    }

    open spec fn spelled(self) -> Seq<char> {
        match self {
            LedLiveTheme::Default => "default"@,
            LedLiveTheme::Seaside => "seaside"@,
            LedLiveTheme::Space => "space"@,
            LedLiveTheme::Fruity => "fruity"@,
            LedLiveTheme::Custom => "custom"@,
        }
    }

    open spec fn named(word: Seq<char>) -> Option<Self> {
        if word == "default"@ {
            Some(LedLiveTheme::Default)
        } else if word == "seaside"@ {
            Some(LedLiveTheme::Seaside)
        } else if word == "space"@ {
            Some(LedLiveTheme::Space)
        } else if word == "fruity"@ {
            Some(LedLiveTheme::Fruity)
        } else if word == "custom"@ {
            Some(LedLiveTheme::Custom)
        } else {
            None
        }
    }

    proof fn spelled_is_named(self) {
        reveal_strlit("default");
        reveal_strlit("seaside");
        reveal_strlit("space");
        reveal_strlit("fruity");
        reveal_strlit("custom");
        assert("default"@[0] != "seaside"@[0]);
        assert("default"@.len() != "space"@.len());
        assert("seaside"@.len() != "space"@.len());
        assert("default"@.len() != "fruity"@.len());
        assert("seaside"@.len() != "fruity"@.len());
        assert("space"@.len() != "fruity"@.len());
        assert("default"@.len() != "custom"@.len());
        assert("seaside"@.len() != "custom"@.len());
        assert("space"@.len() != "custom"@.len());
        assert("fruity"@[0] != "custom"@[0]);
    }

    proof fn named_is_spelled(word: Seq<char>) {
    }

    proof fn listed(word: Seq<char>) {
        let list = words(TokenKind::LedLiveTheme);
        assert(list[0] == "default"@);
        assert(list[1] == "seaside"@);
        assert(list[2] == "space"@);
        assert(list[3] == "fruity"@);
        assert(list[4] == "custom"@);
    }

    proof fn spelled_is_plain(self) {
        reveal_strlit("default");
        reveal_strlit("seaside");
        reveal_strlit("space");
        reveal_strlit("fruity");
        reveal_strlit("custom");
        text::lemma_plain_word(self.spelled());
    }

    fn token_kind() -> (kind: TokenKind) {
        TokenKind::LedLiveTheme
    }

    fn word(&self) -> (word: &'static str) {
        match self {
            LedLiveTheme::Default => "default",
            LedLiveTheme::Seaside => "seaside",
            LedLiveTheme::Space => "space",
            LedLiveTheme::Fruity => "fruity",
            LedLiveTheme::Custom => "custom",
        }
    }

    fn from_word(word: &str) -> (value: Option<Self>) {
        if text::same_text(word, "default") {
            Some(LedLiveTheme::Default)
        } else if text::same_text(word, "seaside") {
            Some(LedLiveTheme::Seaside)
        } else if text::same_text(word, "space") {
            Some(LedLiveTheme::Space)
        } else if text::same_text(word, "fruity") {
            Some(LedLiveTheme::Fruity)
        } else if text::same_text(word, "custom") {
            Some(LedLiveTheme::Custom)
        } else {
            None
        }
    }
}

impl Token for LedSolidTheme {
    open spec fn kind() -> TokenKind {
        TokenKind::LedSolidTheme
    }

    open spec fn spelled(self) -> Seq<char> {
        match self {
            LedSolidTheme::Shure => "shure"@,
            LedSolidTheme::Custom => "custom"@,
        }
    }

    open spec fn named(word: Seq<char>) -> Option<Self> {
        if word == "shure"@ {
            Some(LedSolidTheme::Shure)
        } else if word == "custom"@ {
            Some(LedSolidTheme::Custom)
        } else {
            None
        }
    }

    proof fn spelled_is_named(self) {
        reveal_strlit("shure");
        reveal_strlit("custom");
        assert("shure"@.len() != "custom"@.len());
    }

    proof fn named_is_spelled(word: Seq<char>) {
    }

    proof fn listed(word: Seq<char>) {
        let list = words(TokenKind::LedSolidTheme);
        assert(list[0] == "shure"@);
        assert(list[1] == "custom"@);
    }

    proof fn spelled_is_plain(self) {
        reveal_strlit("shure");
        reveal_strlit("custom");
        text::lemma_plain_word(self.spelled());
    }

    fn token_kind() -> (kind: TokenKind) {
        TokenKind::LedSolidTheme
    }

    fn word(&self) -> (word: &'static str) {
        match self {
            LedSolidTheme::Shure => "shure",
            LedSolidTheme::Custom => "custom",
        }
    }

    fn from_word(word: &str) -> (value: Option<Self>) {
        if text::same_text(word, "shure") {
            Some(LedSolidTheme::Shure)
        } else if text::same_text(word, "custom") {
            Some(LedSolidTheme::Custom)
        } else {
            None
        }
    }
}

impl Token for LedPulsingTheme {
    open spec fn kind() -> TokenKind {
        TokenKind::LedPulsingTheme
    }

    open spec fn spelled(self) -> Seq<char> {
        match self {
            LedPulsingTheme::Shure => "shure"@,
            LedPulsingTheme::Custom => "custom"@,
        }
    }

    open spec fn named(word: Seq<char>) -> Option<Self> {
        if word == "shure"@ {
            Some(LedPulsingTheme::Shure)
        } else if word == "custom"@ {
            Some(LedPulsingTheme::Custom)
        } else {
            None
        }
    }

    proof fn spelled_is_named(self) {
        reveal_strlit("shure");
        reveal_strlit("custom");
        assert("shure"@.len() != "custom"@.len());
    }

    proof fn named_is_spelled(word: Seq<char>) {
    }

    proof fn listed(word: Seq<char>) {
        let list = words(TokenKind::LedPulsingTheme);
        assert(list[0] == "shure"@);
        assert(list[1] == "custom"@);
    }

    proof fn spelled_is_plain(self) {
        reveal_strlit("shure");
        reveal_strlit("custom");
        text::lemma_plain_word(self.spelled());
    }

    fn token_kind() -> (kind: TokenKind) {
        TokenKind::LedPulsingTheme
    }

    fn word(&self) -> (word: &'static str) {
        match self {
            LedPulsingTheme::Shure => "shure",
            LedPulsingTheme::Custom => "custom",
        }
    }

    fn from_word(word: &str) -> (value: Option<Self>) {
        if text::same_text(word, "shure") {
            Some(LedPulsingTheme::Shure)
        } else if text::same_text(word, "custom") {
            Some(LedPulsingTheme::Custom)
        } else {
            None
        }
    }
}

} // verus!
