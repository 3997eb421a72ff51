//! What the application does once the dialog's settings are saved: which
//! parts of the application are refreshed, and whether the proxy settings
//! are kept.

use vstd::prelude::*;

use crate::model::{IndentationMode, Language, ModifiedMarkerPosition, ShortcutSettings, SpellcheckLanguageMode, TtsEngine};
use crate::text::{str_equals, trim, trim_spec};

verus! {

/// The speech settings that a running reading uses.
#[derive(Clone, Debug)]
pub struct SpeechSettings {
    pub tts_engine: TtsEngine,
    pub tts_voice: String,
    pub tts_rate: i32,
    pub tts_pitch: i32,
    pub tts_volume: i32,
    pub use_dialogue_voice: bool,
    pub dialogue_voice: String,
    pub dialogue_use_secondary_voice: bool,
    pub dialogue_secondary_voice: String,
    pub dialogue_secondary_voice_rate: i32,
    pub dialogue_secondary_voice_pitch: i32,
    pub dialogue_secondary_voice_volume: i32,
    pub dialogue_secondary_tts_engine: TtsEngine,
    pub dialogue_voice_rate: i32,
    pub dialogue_voice_pitch: i32,
    pub dialogue_voice_volume: i32,
    pub dialogue_tts_engine: TtsEngine,
    pub dialogue_opening_quote: String,
    pub dialogue_closing_quote: String,
    pub dialogue_allow_multiline: bool,
}

/// The two speech settings agree in every field.
pub open spec fn same_speech(a: SpeechSettings, b: SpeechSettings) -> bool {
    &&& a.tts_engine == b.tts_engine
    &&& a.tts_voice@ == b.tts_voice@
    &&& a.tts_rate == b.tts_rate
    &&& a.tts_pitch == b.tts_pitch
    &&& a.tts_volume == b.tts_volume
    &&& a.use_dialogue_voice == b.use_dialogue_voice
    &&& a.dialogue_voice@ == b.dialogue_voice@
    &&& a.dialogue_use_secondary_voice == b.dialogue_use_secondary_voice
    &&& a.dialogue_secondary_voice@ == b.dialogue_secondary_voice@
    &&& a.dialogue_secondary_voice_rate == b.dialogue_secondary_voice_rate
    &&& a.dialogue_secondary_voice_pitch == b.dialogue_secondary_voice_pitch
    &&& a.dialogue_secondary_voice_volume == b.dialogue_secondary_voice_volume
    &&& a.dialogue_secondary_tts_engine == b.dialogue_secondary_tts_engine
    &&& a.dialogue_voice_rate == b.dialogue_voice_rate
    &&& a.dialogue_voice_pitch == b.dialogue_voice_pitch
    &&& a.dialogue_voice_volume == b.dialogue_voice_volume
    &&& a.dialogue_tts_engine == b.dialogue_tts_engine
    &&& a.dialogue_opening_quote@ == b.dialogue_opening_quote@
    &&& a.dialogue_closing_quote@ == b.dialogue_closing_quote@
    &&& a.dialogue_allow_multiline == b.dialogue_allow_multiline
}

/// Whether the two speech settings agree in every field.
pub fn speech_unchanged(a: &SpeechSettings, b: &SpeechSettings) -> (r: bool)
    ensures
        r == same_speech(*a, *b),
{
    a.tts_engine == b.tts_engine && str_equals(a.tts_voice.as_str(), b.tts_voice.as_str()) && a.tts_rate
        == b.tts_rate && a.tts_pitch == b.tts_pitch && a.tts_volume == b.tts_volume && a.use_dialogue_voice
        == b.use_dialogue_voice && str_equals(a.dialogue_voice.as_str(), b.dialogue_voice.as_str())
        && a.dialogue_use_secondary_voice == b.dialogue_use_secondary_voice && str_equals(
        a.dialogue_secondary_voice.as_str(),
        b.dialogue_secondary_voice.as_str(),
    ) && a.dialogue_secondary_voice_rate == b.dialogue_secondary_voice_rate && a.dialogue_secondary_voice_pitch
        == b.dialogue_secondary_voice_pitch && a.dialogue_secondary_voice_volume
        == b.dialogue_secondary_voice_volume && a.dialogue_secondary_tts_engine
        == b.dialogue_secondary_tts_engine && a.dialogue_voice_rate == b.dialogue_voice_rate
        && a.dialogue_voice_pitch == b.dialogue_voice_pitch && a.dialogue_voice_volume == b.dialogue_voice_volume
        && a.dialogue_tts_engine == b.dialogue_tts_engine && str_equals(
        a.dialogue_opening_quote.as_str(),
        b.dialogue_opening_quote.as_str(),
    ) && str_equals(a.dialogue_closing_quote.as_str(), b.dialogue_closing_quote.as_str())
        && a.dialogue_allow_multiline == b.dialogue_allow_multiline
}

/// The settings whose changes the application reacts to.
#[derive(Clone, Debug)]
pub struct WatchedSettings {
    pub language: Language,
    pub modified_marker_position: ModifiedMarkerPosition,
    pub word_wrap: bool,
    pub indentation_mode: IndentationMode,
    pub indent_tab_width: u32,
    pub indent_space_width: u32,
    pub context_menu_open_with: bool,
    pub group_tools_menu_by_category: bool,
    pub use_legacy_name: bool,
    pub spellcheck_enabled: bool,
    pub spellcheck_language_mode: SpellcheckLanguageMode,
    pub spellcheck_fixed_language: String,
    pub shortcuts: ShortcutSettings,
    pub speech: SpeechSettings,
}

/// What the application refreshes after the dialog's settings are saved.
#[derive(Clone, Copy, Debug, PartialEq, Eq, Structural)]
pub struct ApplyEffects {
    /// The spell checker starts afresh.
    pub reset_spellcheck: bool,
    /// The Explorer context menu is registered again.
    pub sync_context_menu: bool,
    /// The Start-menu shortcuts are made again.
    pub sync_start_menu: bool,
    /// The window title is written again.
    pub update_window_title: bool,
    /// The menus are built again.
    pub rebuild_menus: bool,
    /// Word wrap is applied to every editor.
    pub apply_word_wrap: bool,
    /// Indentation is applied to every editor.
    pub apply_indentation: bool,
    /// A running reading restarts from where it is.
    pub restart_reading: bool,
}

/// What the application refreshes when the settings go from `before` to `after`,
/// a reading running (`reading`) or not.
pub open spec fn apply_effects_spec(before: WatchedSettings, after: WatchedSettings, reading: bool) -> ApplyEffects {
    ApplyEffects {
        reset_spellcheck: after.spellcheck_enabled != before.spellcheck_enabled || after.spellcheck_language_mode
            != before.spellcheck_language_mode || after.spellcheck_fixed_language@ != before.spellcheck_fixed_language@,
        sync_context_menu: after.context_menu_open_with != before.context_menu_open_with || (after.context_menu_open_with
            && before.language != after.language),
        sync_start_menu: after.use_legacy_name != before.use_legacy_name,
        update_window_title: after.use_legacy_name != before.use_legacy_name || after.modified_marker_position
            != before.modified_marker_position,
        rebuild_menus: before.language != after.language || before.shortcuts != after.shortcuts
            || before.group_tools_menu_by_category != after.group_tools_menu_by_category,
        apply_word_wrap: before.word_wrap != after.word_wrap,
        apply_indentation: before.indentation_mode != after.indentation_mode || before.indent_tab_width
            != after.indent_tab_width || before.indent_space_width != after.indent_space_width,
        restart_reading: reading && !same_speech(before.speech, after.speech),
    }
}

/// What the application refreshes after the dialog's settings are saved.
pub fn apply_effects(before: &WatchedSettings, after: &WatchedSettings, reading: bool) -> (effects: ApplyEffects)
    ensures
        effects == apply_effects_spec(*before, *after, reading),
{
    let fixed_language_same = str_equals(
        after.spellcheck_fixed_language.as_str(),
        before.spellcheck_fixed_language.as_str(),
    );
    ApplyEffects {
        reset_spellcheck: after.spellcheck_enabled != before.spellcheck_enabled || after.spellcheck_language_mode
            != before.spellcheck_language_mode || !fixed_language_same,
        sync_context_menu: after.context_menu_open_with != before.context_menu_open_with || (after.context_menu_open_with
            && before.language != after.language),
        sync_start_menu: after.use_legacy_name != before.use_legacy_name,
        update_window_title: after.use_legacy_name != before.use_legacy_name || after.modified_marker_position
            != before.modified_marker_position,
        rebuild_menus: before.language != after.language || before.shortcuts != after.shortcuts
            || before.group_tools_menu_by_category != after.group_tools_menu_by_category,
        apply_word_wrap: before.word_wrap != after.word_wrap,
        apply_indentation: before.indentation_mode != after.indentation_mode || before.indent_tab_width
            != after.indent_tab_width || before.indent_space_width != after.indent_space_width,
        restart_reading: reading && !speech_unchanged(&before.speech, &after.speech),
    }
}

/// Saving settings that did not change refreshes nothing and leaves a
/// running reading alone.
pub proof fn lemma_unchanged_settings_refresh_nothing(settings: WatchedSettings, reading: bool)
    ensures
        apply_effects_spec(settings, settings, reading) == (ApplyEffects {
            reset_spellcheck: false,
            sync_context_menu: false,
            sync_start_menu: false,
            update_window_title: false,
            rebuild_menus: false,
            apply_word_wrap: false,
            apply_indentation: false,
            restart_reading: false,
        }),
{
}

/// The proxy settings of the network section.
#[derive(Clone, Debug)]
pub struct ProxySettings {
    pub url: String,
    pub port: String,
    pub username: String,
    pub password: String,
}

/// The proxy settings read from their fields, each trimmed.
pub fn proxy_settings_from_fields(url: &str, port: &str, username: &str, password: &str) -> (p: ProxySettings)
    ensures
        p.url@ == trim_spec(url@),
        p.port@ == trim_spec(port@),
        p.username@ == trim_spec(username@),
        p.password@ == trim_spec(password@),
{
    ProxySettings { url: trim(url), port: trim(port), username: trim(username), password: trim(password) }
}

/// Whether the proxy is tried before it is saved: when an address or a port
/// is given.
pub open spec fn proxy_check_needed_spec(p: ProxySettings) -> bool {
    p.url@.len() > 0 || p.port@.len() > 0
}

/// Whether the proxy is tried before it is saved.
pub fn proxy_check_needed(p: &ProxySettings) -> (r: bool)
    ensures
        r == proxy_check_needed_spec(*p),
{
    !p.url.as_str().is_empty() || !p.port.as_str().is_empty()
}

/// The proxy settings that are saved: all cleared when the proxy was tried
/// (see `proxy_check_needed`) and did not work, otherwise as given.
pub fn proxy_settings_after_check(p: ProxySettings, proxy_works: bool) -> (r: ProxySettings)
    ensures
        (proxy_check_needed_spec(p) && !proxy_works) ==> (r.url@.len() == 0 && r.port@.len() == 0
            && r.username@.len() == 0 && r.password@.len() == 0),
        !(proxy_check_needed_spec(p) && !proxy_works) ==> (r.url@ == p.url@ && r.port@ == p.port@ && r.username@
            == p.username@ && r.password@ == p.password@),
{
    if proxy_check_needed(&p) && !proxy_works {
        ProxySettings { url: String::new(), port: String::new(), username: String::new(), password: String::new() }
    } else {
        p
    }
}

} // verus!
