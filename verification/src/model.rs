//! The settings values that the options dialog reads and writes.

use vstd::prelude::*;

verus! {

/// The user-interface languages of the application.
#[derive(Clone, Copy, Debug, PartialEq, Eq, Structural)]
pub enum Language {
    Italian,
    English,
    Spanish,
    Portuguese,
    PortugueseBrazilian,
    Swedish,
    Vietnamese,
    Czech,
    Polish,
    French,
    Serbian,
    Ukrainian,
    Lithuanian,
    Russian,
    Chinese,
    Hindi,
    German,
}

/// The speech engines.
#[derive(Clone, Copy, Debug, PartialEq, Eq, Structural)]
pub enum TtsEngine {
    Edge,
    Google,
    Sapi5,
    Sapi4,
}

/// Rate, pitch and volume of a voice, in the engine's internal units.
#[derive(Clone, Copy, Debug, PartialEq, Eq, Structural)]
pub struct TtsTuning {
    pub rate: i32,
    pub pitch: i32,
    pub volume: i32,
}

impl TtsTuning {
    /// A tuning with the given values.
    pub fn new(rate: i32, pitch: i32, volume: i32) -> (t: TtsTuning)
        ensures
            t == (TtsTuning { rate, pitch, volume }),
    {
        TtsTuning { rate, pitch, volume }
    }
}

/// A keyboard shortcut: modifier flags and a virtual-key code.
#[derive(Clone, Copy, Debug, PartialEq, Eq, Structural)]
pub struct ShortcutBinding {
    pub ctrl: bool,
    pub shift: bool,
    pub alt: bool,
    pub key: u16,
}

impl ShortcutBinding {
    /// A binding with the given modifiers and key.
    pub fn new(ctrl: bool, shift: bool, alt: bool, key: u16) -> (b: ShortcutBinding)
        ensures
            b == (ShortcutBinding { ctrl, shift, alt, key }),
    {
        ShortcutBinding { ctrl, shift, alt, key }
    }
}

/// The configurable shortcut of every action.
#[derive(Clone, Copy, Debug, PartialEq, Eq, Structural)]
pub struct ShortcutSettings {
    pub read_pause_resume: ShortcutBinding,
    pub read_start: ShortcutBinding,
    pub read_previous_sentence: ShortcutBinding,
    pub read_next_sentence: ShortcutBinding,
    pub read_stop: ShortcutBinding,
    pub execute_file: ShortcutBinding,
    pub audiobook: ShortcutBinding,
    pub batch_audiobooks: ShortcutBinding,
    pub record_podcast: ShortcutBinding,
    pub dictation: ShortcutBinding,
    pub convert_audio: ShortcutBinding,
    pub open_rss: ShortcutBinding,
    pub open_podcasts: ShortcutBinding,
    pub open_paths_navigation: ShortcutBinding,
    pub open_radio: ShortcutBinding,
    pub open_calendar: ShortcutBinding,
    pub open_weather: ShortcutBinding,
    pub open_cinema: ShortcutBinding,
    pub open_dictionary: ShortcutBinding,
    pub open_options: ShortcutBinding,
    pub open_terminal: ShortcutBinding,
    pub import_wikipedia: ShortcutBinding,
    pub import_youtube: ShortcutBinding,
    pub find: ShortcutBinding,
    pub quote_lines: ShortcutBinding,
    pub unquote_lines: ShortcutBinding,
    pub media_prev: ShortcutBinding,
    pub media_next: ShortcutBinding,
    pub chapter_prev: ShortcutBinding,
    pub chapter_next: ShortcutBinding,
}

/// A voice offered by an engine.
#[derive(Clone, Debug)]
pub struct VoiceInfo {
    pub short_name: String,
    pub locale: String,
    pub is_multilingual: bool,
}

/// A named set of voice choices: the engine and voice with the tuning of
/// each engine, the list filters, and the dialogue voices.
#[derive(Clone, Debug)]
pub struct VoiceProfile {
    pub name: String,
    pub tts_engine: TtsEngine,
    pub tts_voice: String,
    pub tts_only_multilingual: bool,
    pub tts_manual_tuning: bool,
    pub edge_tts_tuning: TtsTuning,
    pub google_tts_tuning: TtsTuning,
    pub sapi5_tts_tuning: TtsTuning,
    pub sapi4_tts_tuning: TtsTuning,
    pub use_dialogue_voice: bool,
    pub dialogue_tts_engine: TtsEngine,
    pub dialogue_voice: String,
    pub dialogue_voice_rate: i32,
    pub dialogue_voice_pitch: i32,
    pub dialogue_voice_volume: i32,
    pub dialogue_use_secondary_voice: bool,
    pub dialogue_secondary_tts_engine: TtsEngine,
    pub dialogue_secondary_voice: String,
    pub dialogue_secondary_voice_rate: i32,
    pub dialogue_secondary_voice_pitch: i32,
    pub dialogue_secondary_voice_volume: i32,
}

/// Two profiles hold the same voice choices, whatever their names.
pub open spec fn same_voice_choices(a: VoiceProfile, b: VoiceProfile) -> bool {
    &&& a.tts_engine == b.tts_engine
    &&& a.tts_voice@ == b.tts_voice@
    &&& a.tts_only_multilingual == b.tts_only_multilingual
    &&& a.tts_manual_tuning == b.tts_manual_tuning
    &&& a.edge_tts_tuning == b.edge_tts_tuning
    &&& a.google_tts_tuning == b.google_tts_tuning
    &&& a.sapi5_tts_tuning == b.sapi5_tts_tuning
    &&& a.sapi4_tts_tuning == b.sapi4_tts_tuning
    &&& a.use_dialogue_voice == b.use_dialogue_voice
    &&& a.dialogue_tts_engine == b.dialogue_tts_engine
    &&& a.dialogue_voice@ == b.dialogue_voice@
    &&& a.dialogue_voice_rate == b.dialogue_voice_rate
    &&& a.dialogue_voice_pitch == b.dialogue_voice_pitch
    &&& a.dialogue_voice_volume == b.dialogue_voice_volume
    &&& a.dialogue_use_secondary_voice == b.dialogue_use_secondary_voice
    &&& a.dialogue_secondary_tts_engine == b.dialogue_secondary_tts_engine
    &&& a.dialogue_secondary_voice@ == b.dialogue_secondary_voice@
    &&& a.dialogue_secondary_voice_rate == b.dialogue_secondary_voice_rate
    &&& a.dialogue_secondary_voice_pitch == b.dialogue_secondary_voice_pitch
    &&& a.dialogue_secondary_voice_volume == b.dialogue_secondary_voice_volume
}

/// The name of the built-in voice profile, which cannot be renamed or deleted.
pub const DEFAULT_VOICE_PROFILE_NAME: &'static str = "Predefinito";

/// Where the title bar marks a modified document.
#[derive(Clone, Copy, Debug, PartialEq, Eq, Structural)]
pub enum ModifiedMarkerPosition {
    End,
    Beginning,
}

/// Where an opened document goes.
#[derive(Clone, Copy, Debug, PartialEq, Eq, Structural)]
pub enum OpenBehavior {
    NewTab,
    NewWindow,
}

/// Which language the spell checker uses.
#[derive(Clone, Copy, Debug, PartialEq, Eq, Structural)]
pub enum SpellcheckLanguageMode {
    FollowEditorLanguage,
    FixedLanguage,
}

/// How the editor indents.
#[derive(Clone, Copy, Debug, PartialEq, Eq, Structural)]
pub enum IndentationMode {
    Default,
    Tabs,
    Spaces,
}

/// How subtitles are read.
#[derive(Clone, Copy, Debug, PartialEq, Eq, Structural)]
pub enum SubtitleReadMode {
    Off,
    Nvda,
    User,
    Record,
}

/// What the RSS reader asks before deleting.
#[derive(Clone, Copy, Debug, PartialEq, Eq, Structural)]
pub enum RssDeleteConfirmMode {
    Feed,
    Article,
    Both,
    Never,
}

/// What the podcast player asks before deleting.
#[derive(Clone, Copy, Debug, PartialEq, Eq, Structural)]
pub enum PodcastDeleteConfirmMode {
    Podcast,
    Episode,
    Both,
    Never,
}

/// What the quick-copy command of the RSS reader copies.
#[derive(Clone, Copy, Debug, PartialEq, Eq, Structural)]
pub enum RssQuickCopyMode {
    Title,
    Url,
    Content,
    All,
}

/// Where the "unread" label of RSS and podcast items stands.
#[derive(Clone, Copy, Debug, PartialEq, Eq, Structural)]
pub enum RssPodcastUnreadLabelPosition {
    Before,
    After,
}

/// Whether lists show dates.
#[derive(Clone, Copy, Debug, PartialEq, Eq, Structural)]
pub enum ListDateDisplayMode {
    Always,
    Never,
}

/// Whether lists show times.
#[derive(Clone, Copy, Debug, PartialEq, Eq, Structural)]
pub enum ListTimeDisplayMode {
    Always,
    Never,
    OnlyIfMultipleSameDay,
}

/// How the files of an audiobook's parts are named.
#[derive(Clone, Copy, Debug, PartialEq, Eq, Structural)]
pub enum AudiobookPartNamingMode {
    TitleNumber,
    NumberOnly,
    NumberTitle,
}

/// What is announced at the start of an audiobook part.
#[derive(Clone, Copy, Debug, PartialEq, Eq, Structural)]
pub enum AudiobookPartAnnouncementMode {
    Silent,
    Title,
    TitlePartNumber,
    FileName,
    FileNamePartNumber,
}

/// How an audiobook is split: by time, at a marker text, into a number of
/// parts (`parts > 0`), or not at all.
#[derive(Clone, Copy, Debug, PartialEq, Eq, Structural)]
pub struct AudiobookSplit {
    pub by_time: bool,
    pub by_text: bool,
    pub parts: u32,
}

} // verus!
