//! The texts of the options dialog in the user's language.

use vstd::prelude::*;

use crate::i18n::Catalog;
use crate::model::Language;
use crate::text::{concat_str, str_equals, to_ascii_uppercase, upper_seq};

verus! {

/// Every label, button text and list entry of the options dialog.
#[derive(Clone, Debug)]
pub struct OptionsLabels {
    pub title: String,
    pub tab_general: String,
    pub tab_voice: String,
    pub tab_editor: String,
    pub tab_audio: String,
    pub tab_rss_podcast: String,
    pub tab_ai_transcription: String,
    pub tab_shortcuts: String,
    pub label_language: String,
    pub label_modified_marker_position: String,
    pub label_open: String,
    pub label_tts_engine: String,
    pub label_tts_voice_language: String,
    pub label_voice_profile: String,
    pub label_voice: String,
    pub button_rename_voice_profile: String,
    pub button_add_voice_profile: String,
    pub button_delete_voice_profile: String,
    pub button_manage_google_voices: String,
    pub label_multilingual: String,
    pub label_use_dialogue_voice: String,
    pub label_dialogue_voice: String,
    pub label_dialogue_voice_preview: String,
    pub label_dialogue_engine: String,
    pub label_dialogue_voice_language: String,
    pub label_dialogue_voice_rate: String,
    pub label_dialogue_voice_pitch: String,
    pub label_dialogue_voice_volume: String,
    pub label_dialogue_use_secondary_voice: String,
    pub label_dialogue_secondary_engine: String,
    pub label_dialogue_secondary_voice_language: String,
    pub label_dialogue_secondary_voice: String,
    pub label_dialogue_open_quote: String,
    pub label_dialogue_close_quote: String,
    pub label_dialogue_allow_multiline: String,
    pub label_tts_speed: String,
    pub label_tts_pitch: String,
    pub label_tts_volume: String,
    pub label_tts_preview: String,
    pub label_tts_insert_tag: String,
    pub label_tts_insert_pause: String,
    pub label_tts_manual_tuning: String,
    pub label_split_on_newline: String,
    pub label_word_wrap: String,
    pub label_editor_escape_closes_window: String,
    pub label_editor_up_down_moves_to_line_start: String,
    pub label_smart_quotes: String,
    pub label_strip_markdown_keep_bullets: String,
    pub label_spellcheck: String,
    pub label_spellcheck_language: String,
    pub label_dictionary_translation: String,
    pub label_wikipedia_language: String,
    pub label_wrap_width: String,
    pub label_indentation: String,
    pub indent_default: String,
    pub indent_tabs: String,
    pub indent_spaces: String,
    pub label_tab_width: String,
    pub label_space_width: String,
    pub label_quote_prefix: String,
    pub label_interpreter_path: String,
    pub label_interpreter_browse: String,
    pub label_interpreter_search: String,
    pub label_subtitle_mode: String,
    pub label_move_cursor: String,
    pub label_check_updates: String,
    pub label_check_beta_updates: String,
    pub label_send_crash_reports: String,
    pub label_use_legacy_name: String,
    pub label_context_menu: String,
    pub label_group_tools_menu_by_category: String,
    pub label_confirm_delete_rss_mode: String,
    pub label_confirm_delete_podcast_mode: String,
    pub label_rss_quick_copy_mode: String,
    pub label_file_associations: String,
    pub label_manage_associations: String,
    pub label_manage_site_credentials: String,
    pub label_prompt_program: String,
    pub label_network_proxy: String,
    pub label_network_proxy_port: String,
    pub label_network_proxy_username: String,
    pub label_network_proxy_password: String,
    pub label_shortcut_action: String,
    pub label_shortcut_value: String,
    pub label_shortcut_change: String,
    pub label_shortcut_reset: String,
    pub label_shortcut_reset_all: String,
    pub label_audio_skip: String,
    pub label_default_save_folder_kind: String,
    pub option_default_save_folder_audiobooks: String,
    pub option_default_save_folder_audio_descriptions: String,
    pub option_default_save_folder_media: String,
    pub option_default_save_folder_documents: String,
    pub option_default_save_folder_radio: String,
    pub option_default_save_folder_tv: String,
    pub label_audiobook_save_folder: String,
    pub label_audiobook_save_folder_browse: String,
    pub label_show_media_save_confirmation: String,
    pub label_audio_description_after_tv_recording: String,
    pub label_audio_split: String,
    pub label_audio_split_minutes: String,
    pub label_audio_split_parts_count: String,
    pub label_audio_split_start_number: String,
    pub label_audiobook_part_naming: String,
    pub label_audiobook_part_announcement: String,
    pub label_audio_split_text: String,
    pub label_audio_split_requires_newline: String,
    pub label_audio_split_epub_chapters: String,
    pub option_audiobook_part_naming_title_number: String,
    pub option_audiobook_part_naming_number_only: String,
    pub option_audiobook_part_naming_number_title: String,
    pub option_audiobook_part_announcement_none: String,
    pub option_audiobook_part_announcement_title: String,
    pub option_audiobook_part_announcement_title_part: String,
    pub option_audiobook_part_announcement_file_name: String,
    pub option_audiobook_part_announcement_file_name_part: String,
    pub label_subtitle_ducking: String,
    pub label_subtitle_offset: String,
    pub label_podcast_cache_limit: String,
    pub label_rss_show_article_preview: String,
    pub label_announce_unread_rss_podcast: String,
    pub label_unread_label_position: String,
    pub label_rss_date_display: String,
    pub label_rss_time_display: String,
    pub label_podcast_date_display: String,
    pub label_podcast_time_display: String,
    pub label_podcast_directory_country: String,
    pub option_automatic: String,
    pub label_podcastindex_key: String,
    pub label_podcastindex_secret: String,
    pub label_rai_luce_code: String,
    pub label_whisper_model: String,
    pub label_whisper_cuda: String,
    pub label_whisper_audio_language: String,
    pub label_whisper_include_timestamps: String,
    pub label_gemini_api_key: String,
    pub button_gemini_get_key: String,
    pub label_gemini_model: String,
    pub button_gemini_refresh_models: String,
    pub label_dictation_microphone: String,
    pub option_podcast_device_default: String,
    pub whisper_model_small: String,
    pub whisper_model_medium: String,
    pub whisper_model_large: String,
    pub label_podcastindex_signup: String,
    pub lang_it: String,
    pub lang_en: String,
    pub lang_es: String,
    pub lang_pt: String,
    pub lang_pt_br: String,
    pub lang_sv: String,
    pub lang_vi: String,
    pub lang_cs: String,
    pub lang_pl: String,
    pub lang_fr: String,
    pub lang_sr: String,
    pub lang_uk: String,
    pub lang_lt: String,
    pub lang_ru: String,
    pub lang_zh: String,
    pub lang_de: String,
    pub lang_hi: String,
    pub marker_position_end: String,
    pub marker_position_beginning: String,
    pub open_new_tab: String,
    pub open_new_window: String,
    pub engine_edge: String,
    pub engine_google: String,
    pub engine_sapi5: String,
    pub engine_sapi4: String,
    pub subtitle_mode_off: String,
    pub subtitle_mode_nvda: String,
    pub subtitle_mode_user: String,
    pub subtitle_mode_record: String,
    pub split_none: String,
    pub split_by_time: String,
    pub split_by_text: String,
    pub split_by_parts: String,
    pub spellcheck_lang_follow: String,
    pub spellcheck_lang_en_us: String,
    pub spellcheck_lang_en_gb: String,
    pub spellcheck_lang_it: String,
    pub spellcheck_lang_es: String,
    pub spellcheck_lang_pt_br: String,
    pub spellcheck_lang_fr: String,
    pub spellcheck_lang_de: String,
    pub spellcheck_lang_ru: String,
    pub spellcheck_lang_hi: String,
    pub dictionary_translation_auto: String,
    pub dictionary_translation_none: String,
    pub wikipedia_language_auto: String,
    pub prompt_cmd: String,
    pub prompt_powershell: String,
    pub prompt_codex: String,
    pub confirm_delete_feed: String,
    pub confirm_delete_article: String,
    pub confirm_delete_podcast: String,
    pub confirm_delete_episode: String,
    pub confirm_delete_both: String,
    pub confirm_delete_none: String,
    pub rss_quick_copy_title: String,
    pub rss_quick_copy_url: String,
    pub rss_quick_copy_content: String,
    pub rss_quick_copy_all: String,
    pub unread_label_position_before: String,
    pub unread_label_position_after: String,
    pub list_date_always: String,
    pub list_date_never: String,
    pub list_time_always: String,
    pub list_time_never: String,
    pub list_time_only_if_multiple_same_day: String,
    pub ok: String,
    pub cancel: String,
    pub voices_empty: String,
}

/// The texts of the options dialog in `language`.
pub fn options_labels(catalog: &Catalog, language: Language) -> (labels: OptionsLabels)
    ensures
        labels.title@ == catalog.translate(language, "options.title"@),
        labels.tab_general@ == catalog.translate(language, "options.tab.general"@),
        labels.tab_voice@ == catalog.translate(language, "options.tab.voice"@),
        labels.tab_editor@ == catalog.translate(language, "options.tab.editor"@),
        labels.tab_audio@ == catalog.translate(language, "options.tab.audio"@),
        labels.tab_rss_podcast@ == catalog.translate(language, "options.tab.rss_podcast"@),
        labels.tab_ai_transcription@ == catalog.translate(language, "options.tab.ai_transcription"@),
        labels.tab_shortcuts@ == catalog.translate(language, "options.shortcuts.tab"@),
        labels.label_language@ == catalog.translate(language, "options.label.language"@),
        labels.label_modified_marker_position@ == catalog.translate(language, "options.label.modified_marker_position"@),
        labels.label_open@ == catalog.translate(language, "options.label.open"@),
        labels.label_tts_engine@ == catalog.translate(language, "options.label.tts_engine"@),
        labels.label_tts_voice_language@ == catalog.translate(language, "options.label.voice_language"@),
        labels.label_voice_profile@ == catalog.translate(language, "options.label.voice_profile"@),
        labels.label_voice@ == catalog.translate(language, "options.label.voice"@),
        labels.button_rename_voice_profile@ == catalog.translate(language, "options.button.apply_selected_profile"@),
        labels.button_add_voice_profile@ == catalog.translate(language, "options.button.add_profile"@),
        labels.button_delete_voice_profile@ == catalog.translate(language, "options.button.delete_profile"@),
        labels.button_manage_google_voices@ == catalog.translate(language, "menu.google_voices"@),
        labels.label_multilingual@ == catalog.translate(language, "options.label.multilingual"@),
        labels.label_use_dialogue_voice@ == catalog.translate(language, "options.label.use_dialogue_voice"@),
        labels.label_dialogue_voice@ == catalog.translate(language, "options.label.dialogue_voice"@),
        labels.label_dialogue_voice_preview@ == catalog.translate(language, "options.label.dialogue_voice_preview"@),
        labels.label_dialogue_engine@ == catalog.translate(language, "options.label.tts_engine"@),
        labels.label_dialogue_voice_language@ == catalog.translate(language, "options.label.voice_language"@),
        labels.label_dialogue_voice_rate@ == catalog.translate(language, "tts_tuning.label_speed"@),
        labels.label_dialogue_voice_pitch@ == catalog.translate(language, "tts_tuning.label_pitch"@),
        labels.label_dialogue_voice_volume@ == catalog.translate(language, "tts_tuning.label_volume"@),
        labels.label_dialogue_use_secondary_voice@ == catalog.translate(language, "options.label.dialogue_use_secondary_voice"@),
        labels.label_dialogue_secondary_engine@ == catalog.translate(language, "options.label.dialogue_secondary_engine"@),
        labels.label_dialogue_secondary_voice_language@ == catalog.translate(language, "options.label.dialogue_secondary_voice_language"@),
        labels.label_dialogue_secondary_voice@ == catalog.translate(language, "options.label.dialogue_secondary_voice"@),
        labels.label_dialogue_open_quote@ == catalog.translate(language, "dialogue_voice.apply.open_quote_title"@),
        labels.label_dialogue_close_quote@ == catalog.translate(language, "dialogue_voice.apply.close_quote_title"@),
        labels.label_dialogue_allow_multiline@ == catalog.translate(language, "dialogue_voice.apply.multiline_body"@),
        labels.label_tts_speed@ == catalog.translate(language, "tts_tuning.label_speed"@),
        labels.label_tts_pitch@ == catalog.translate(language, "tts_tuning.label_pitch"@),
        labels.label_tts_volume@ == catalog.translate(language, "tts_tuning.label_volume"@),
        labels.label_tts_preview@ == catalog.translate(language, "options.label.voice_preview"@),
        labels.label_tts_insert_tag@ == catalog.translate(language, "options.label.insert_voice_tag"@),
        labels.label_tts_insert_pause@ == catalog.translate(language, "options.label.insert_pause_tag"@),
        labels.label_tts_manual_tuning@ == catalog.translate(language, "options.label.tts_manual_tuning"@),
        labels.label_split_on_newline@ == catalog.translate(language, "options.label.split_on_newline"@),
        labels.label_word_wrap@ == catalog.translate(language, "options.label.word_wrap"@),
        labels.label_editor_escape_closes_window@ == catalog.translate(language, "options.label.editor_escape_closes_window"@),
        labels.label_editor_up_down_moves_to_line_start@ == catalog.translate(language, "options.label.editor_up_down_moves_to_line_start"@),
        labels.label_smart_quotes@ == catalog.translate(language, "options.label.smart_quotes"@),
        labels.label_strip_markdown_keep_bullets@ == catalog.translate(language, "options.label.strip_markdown_keep_bullets"@),
        labels.label_spellcheck@ == catalog.translate(language, "options.label.spellcheck"@),
        labels.label_spellcheck_language@ == catalog.translate(language, "options.label.spellcheck_language"@),
        labels.label_dictionary_translation@ == catalog.translate(language, "options.label.dictionary_translation"@),
        labels.label_wikipedia_language@ == catalog.translate(language, "options.label.wikipedia_language"@),
        labels.label_wrap_width@ == catalog.translate(language, "options.label.wrap_width"@),
        labels.label_indentation@ == catalog.translate(language, "options.label.indentation"@),
        labels.indent_default@ == catalog.translate(language, "options.indent.default"@),
        labels.indent_tabs@ == catalog.translate(language, "options.indent.tabs"@),
        labels.indent_spaces@ == catalog.translate(language, "options.indent.spaces"@),
        labels.label_tab_width@ == catalog.translate(language, "options.label.tab_width"@),
        labels.label_space_width@ == catalog.translate(language, "options.label.space_width"@),
        labels.label_quote_prefix@ == catalog.translate(language, "options.label.quote_prefix"@),
        labels.label_interpreter_path@ == catalog.translate(language, "options.label.interpreter_path"@),
        labels.label_interpreter_browse@ == catalog.translate(language, "options.button.browse"@),
        labels.label_interpreter_search@ == catalog.translate(language, "options.button.search_computer"@),
        labels.label_subtitle_mode@ == catalog.translate(language, "options.label.subtitle_mode"@),
        labels.label_move_cursor@ == catalog.translate(language, "options.label.move_cursor"@),
        labels.label_check_updates@ == catalog.translate(language, "options.label.check_updates"@),
        labels.label_check_beta_updates@ == catalog.translate_or(language, "options.label.check_beta_updates"@, "Check beta updates"@),
        labels.label_send_crash_reports@ == catalog.translate(language, "options.label.send_crash_reports"@),
        labels.label_use_legacy_name@ == catalog.translate(language, "options.label.legacy_name"@),
        labels.label_context_menu@ == catalog.translate(language, "options.label.context_menu"@),
        labels.label_group_tools_menu_by_category@ == catalog.translate(language, "options.label.group_tools_menu_by_category"@),
        labels.label_confirm_delete_rss_mode@ == catalog.translate(language, "options.label.confirm_delete_rss_mode"@),
        labels.label_confirm_delete_podcast_mode@ == catalog.translate(language, "options.label.confirm_delete_podcast_mode"@),
        labels.label_rss_quick_copy_mode@ == catalog.translate(language, "options.label.rss_quick_copy_mode"@),
        labels.label_file_associations@ == catalog.translate(language, "options.label.file_associations"@),
        labels.label_manage_associations@ == catalog.translate(language, "options.button.manage_associations"@),
        labels.label_manage_site_credentials@ == catalog.translate(language, "options.manage_site_credentials"@),
        labels.label_prompt_program@ == catalog.translate(language, "options.label.prompt_program"@),
        labels.label_network_proxy@ == catalog.translate(language, "options.label.network_proxy"@),
        labels.label_network_proxy_port@ == catalog.translate(language, "options.label.network_proxy_port"@),
        labels.label_network_proxy_username@ == catalog.translate(language, "options.label.network_proxy_username"@),
        labels.label_network_proxy_password@ == catalog.translate(language, "options.label.network_proxy_password"@),
        labels.label_shortcut_action@ == catalog.translate(language, "options.shortcuts.label_action"@),
        labels.label_shortcut_value@ == catalog.translate(language, "options.shortcuts.label_combination"@),
        labels.label_shortcut_change@ == catalog.translate(language, "options.shortcuts.button_change"@),
        labels.label_shortcut_reset@ == catalog.translate(language, "options.shortcuts.button_default"@),
        labels.label_shortcut_reset_all@ == catalog.translate(language, "options.shortcuts.button_reset_all"@),
        labels.label_audio_skip@ == catalog.translate(language, "options.label.audio_skip"@),
        labels.label_default_save_folder_kind@ == catalog.translate_or(language, "options.label.default_save_folder_kind"@, "Default folder type:"@),
        labels.option_default_save_folder_audiobooks@ == catalog.translate_or(language, "options.choice.default_save_folder.audiobooks"@, "Audiobooks"@),
        labels.option_default_save_folder_audio_descriptions@ == catalog.translate_or(language, "options.choice.default_save_folder.audio_descriptions"@, "Audio descriptions"@),
        labels.option_default_save_folder_media@ == catalog.translate_or(language, "options.choice.default_save_folder.media"@, "Media"@),
        labels.option_default_save_folder_documents@ == catalog.translate_or(language, "options.choice.default_save_folder.documents"@, "Documents"@),
        labels.option_default_save_folder_radio@ == catalog.translate_or(language, "options.choice.default_save_folder.radio"@, "Radio recordings"@),
        labels.option_default_save_folder_tv@ == catalog.translate_or(language, "options.choice.default_save_folder.tv"@, "TV recordings"@),
        labels.label_audiobook_save_folder@ == catalog.translate_or(language, "options.label.default_save_folder_path"@, "Default folder path:"@),
        labels.label_audiobook_save_folder_browse@ == catalog.translate(language, "options.button.browse"@),
        labels.label_show_media_save_confirmation@ == catalog.translate(language, "options.label.show_media_save_confirmation"@),
        labels.label_audio_description_after_tv_recording@ == (if language == Language::Italian { "Crea l'audiodescrizione dopo il termine della registrazione tv."@ } else { Seq::<char>::empty() }),
        labels.label_audio_split@ == catalog.translate(language, "options.label.audio_split"@),
        labels.label_audio_split_minutes@ == catalog.translate(language, "options.label.audio_split_minutes"@),
        labels.label_audio_split_parts_count@ == catalog.translate(language, "options.label.audio_split_parts_count"@),
        labels.label_audio_split_start_number@ == catalog.translate(language, "options.label.audio_split_start_number"@),
        labels.label_audiobook_part_naming@ == catalog.translate(language, "options.label.audiobook_part_naming"@),
        labels.label_audiobook_part_announcement@ == catalog.translate(language, "options.label.audiobook_part_announcement"@),
        labels.label_audio_split_text@ == catalog.translate(language, "options.label.audio_split_text"@),
        labels.label_audio_split_requires_newline@ == catalog.translate(language, "options.label.audio_split_requires_newline"@),
        labels.label_audio_split_epub_chapters@ == catalog.translate(language, "options.label.audio_split_epub_chapters"@),
        labels.option_audiobook_part_naming_title_number@ == catalog.translate(language, "options.choice.audiobook_part_naming.title_number"@),
        labels.option_audiobook_part_naming_number_only@ == catalog.translate(language, "options.choice.audiobook_part_naming.number_only"@),
        labels.option_audiobook_part_naming_number_title@ == catalog.translate(language, "options.choice.audiobook_part_naming.number_title"@),
        labels.option_audiobook_part_announcement_none@ == catalog.translate(language, "options.choice.audiobook_part_announcement.none"@),
        labels.option_audiobook_part_announcement_title@ == catalog.translate(language, "options.choice.audiobook_part_announcement.title"@),
        labels.option_audiobook_part_announcement_title_part@ == catalog.translate(language, "options.choice.audiobook_part_announcement.title_part_number"@),
        labels.option_audiobook_part_announcement_file_name@ == catalog.translate(language, "options.choice.audiobook_part_announcement.file_name"@),
        labels.option_audiobook_part_announcement_file_name_part@ == catalog.translate(language, "options.choice.audiobook_part_announcement.file_name_part_number"@),
        labels.label_subtitle_ducking@ == catalog.translate(language, "options.label.subtitle_ducking"@),
        labels.label_subtitle_offset@ == catalog.translate(language, "options.label.subtitle_offset"@),
        labels.label_podcast_cache_limit@ == catalog.translate(language, "options.label.podcast_cache_limit"@),
        labels.label_rss_show_article_preview@ == catalog.translate(language, "options.label.rss_show_article_preview"@),
        labels.label_announce_unread_rss_podcast@ == catalog.translate(language, "options.label.announce_unread_rss_podcast"@),
        labels.label_unread_label_position@ == catalog.translate(language, "options.label.unread_label_position"@),
        labels.label_rss_date_display@ == catalog.translate(language, "options.label.rss_date_display"@),
        labels.label_rss_time_display@ == catalog.translate(language, "options.label.rss_time_display"@),
        labels.label_podcast_date_display@ == catalog.translate(language, "options.label.podcast_date_display"@),
        labels.label_podcast_time_display@ == catalog.translate(language, "options.label.podcast_time_display"@),
        labels.label_podcast_directory_country@ == catalog.translate_or(language, "options.label.podcast_directory_country"@, "Podcast directory country"@),
        labels.option_automatic@ == catalog.translate_or(language, "options.choice.automatic"@, "Automatic"@),
        labels.label_podcastindex_key@ == catalog.translate(language, "options.label.podcastindex_key"@),
        labels.label_podcastindex_secret@ == catalog.translate(language, "options.label.podcastindex_secret"@),
        labels.label_rai_luce_code@ == catalog.translate_or(language, "options.label.rai_luce_code"@, "Codice Sonarpad per funzioni aggiuntive"@),
        labels.label_whisper_model@ == catalog.translate(language, "options.label.whisper_model"@),
        labels.label_whisper_cuda@ == catalog.translate(language, "options.label.whisper_cuda"@),
        labels.label_whisper_audio_language@ == catalog.translate(language, "options.label.whisper_audio_language"@),
        labels.label_whisper_include_timestamps@ == catalog.translate(language, "options.label.whisper_include_timestamps"@),
        labels.label_gemini_api_key@ == catalog.translate(language, "options.gemini_api_key"@),
        labels.button_gemini_get_key@ == catalog.translate(language, "options.gemini_get_key"@),
        labels.label_gemini_model@ == catalog.translate(language, "options.gemini_model"@),
        labels.button_gemini_refresh_models@ == catalog.translate(language, "options.gemini_refresh_models"@),
        labels.label_dictation_microphone@ == catalog.translate(language, "podcast.mic_device"@),
        labels.option_podcast_device_default@ == catalog.translate(language, "podcast.device.default"@),
        labels.whisper_model_small@ == catalog.translate(language, "options.whisper_model.small"@),
        labels.whisper_model_medium@ == catalog.translate(language, "options.whisper_model.medium"@),
        labels.whisper_model_large@ == catalog.translate(language, "options.whisper_model.large"@),
        labels.label_podcastindex_signup@ == catalog.translate(language, "options.button.podcastindex_signup"@),
        labels.lang_it@ == catalog.translate(language, "options.lang.it"@),
        labels.lang_en@ == catalog.translate(language, "options.lang.en"@),
        labels.lang_es@ == catalog.translate(language, "options.lang.es"@),
        labels.lang_pt@ == catalog.translate(language, "options.lang.pt"@),
        labels.lang_pt_br@ == catalog.translate(language, "options.lang.pt_br"@),
        labels.lang_sv@ == catalog.translate(language, "options.lang.sv"@),
        labels.lang_vi@ == catalog.translate(language, "options.lang.vi"@),
        labels.lang_cs@ == catalog.translate(language, "options.lang.cs"@),
        labels.lang_pl@ == catalog.translate(language, "options.lang.pl"@),
        labels.lang_fr@ == catalog.translate(language, "options.lang.fr"@),
        labels.lang_sr@ == catalog.translate_or(language, "options.lang.sr"@, "Serbian"@),
        labels.lang_uk@ == catalog.translate_or(language, "options.lang.uk"@, "Ukrainian"@),
        labels.lang_lt@ == catalog.translate_or(language, "options.lang.lt"@, "Lithuanian"@),
        labels.lang_ru@ == catalog.translate_or(language, "options.lang.ru"@, "Russian"@),
        labels.lang_zh@ == catalog.translate_or(language, "options.lang.zh"@, "Chinese"@),
        labels.lang_de@ == catalog.translate(language, "options.lang.de"@),
        labels.lang_hi@ == catalog.translate_or(language, "options.lang.hi"@, "Hindi"@),
        labels.marker_position_end@ == catalog.translate(language, "options.modified_marker_position.end"@),
        labels.marker_position_beginning@ == catalog.translate(language, "options.modified_marker_position.beginning"@),
        labels.open_new_tab@ == catalog.translate(language, "options.open.new_tab"@),
        labels.open_new_window@ == catalog.translate(language, "options.open.new_window"@),
        labels.engine_edge@ == catalog.translate(language, "options.engine.edge"@),
        labels.engine_google@ == catalog.translate(language, "options.engine.google"@),
        labels.engine_sapi5@ == catalog.translate(language, "options.engine.sapi5"@),
        labels.engine_sapi4@ == "SAPI 4"@,
        labels.subtitle_mode_off@ == catalog.translate(language, "options.subtitle_mode.off"@),
        labels.subtitle_mode_nvda@ == catalog.translate(language, "options.subtitle_mode.nvda"@),
        labels.subtitle_mode_user@ == catalog.translate(language, "options.subtitle_mode.user"@),
        labels.subtitle_mode_record@ == catalog.translate(language, "options.subtitle_mode.record"@),
        labels.split_none@ == catalog.translate(language, "options.split.none"@),
        labels.split_by_time@ == catalog.translate(language, "options.split.by_time"@),
        labels.split_by_text@ == catalog.translate(language, "options.split.by_text"@),
        labels.split_by_parts@ == catalog.translate(language, "options.split.by_parts"@),
        labels.spellcheck_lang_follow@ == catalog.translate(language, "options.spellcheck.lang.follow"@),
        labels.spellcheck_lang_en_us@ == catalog.translate(language, "options.spellcheck.lang.en_us"@),
        labels.spellcheck_lang_en_gb@ == catalog.translate(language, "options.spellcheck.lang.en_gb"@),
        labels.spellcheck_lang_it@ == catalog.translate(language, "options.spellcheck.lang.it"@),
        labels.spellcheck_lang_es@ == catalog.translate(language, "options.spellcheck.lang.es"@),
        labels.spellcheck_lang_pt_br@ == catalog.translate(language, "options.spellcheck.lang.pt_br"@),
        labels.spellcheck_lang_fr@ == catalog.translate(language, "options.spellcheck.lang.fr"@),
        labels.spellcheck_lang_de@ == catalog.translate(language, "options.spellcheck.lang.de"@),
        labels.spellcheck_lang_ru@ == catalog.translate(language, "options.spellcheck.lang.ru"@),
        labels.spellcheck_lang_hi@ == catalog.translate(language, "options.spellcheck.lang.hi"@),
        labels.dictionary_translation_auto@ == catalog.translate(language, "options.dictionary_translation.auto"@),
        labels.dictionary_translation_none@ == catalog.translate(language, "options.dictionary_translation.none"@),
        labels.wikipedia_language_auto@ == catalog.translate(language, "options.wikipedia_language.auto"@),
        labels.prompt_cmd@ == catalog.translate(language, "options.prompt.cmd"@),
        labels.prompt_powershell@ == catalog.translate(language, "options.prompt.powershell"@),
        labels.prompt_codex@ == catalog.translate(language, "options.prompt.codex"@),
        labels.confirm_delete_feed@ == catalog.translate(language, "options.confirm_delete.feed"@),
        labels.confirm_delete_article@ == catalog.translate(language, "options.confirm_delete.article"@),
        labels.confirm_delete_podcast@ == catalog.translate(language, "options.confirm_delete.podcast"@),
        labels.confirm_delete_episode@ == catalog.translate(language, "options.confirm_delete.episode"@),
        labels.confirm_delete_both@ == catalog.translate(language, "options.confirm_delete.both"@),
        labels.confirm_delete_none@ == catalog.translate(language, "options.confirm_delete.none"@),
        labels.rss_quick_copy_title@ == catalog.translate(language, "options.rss_quick_copy.title"@),
        labels.rss_quick_copy_url@ == catalog.translate(language, "options.rss_quick_copy.url"@),
        labels.rss_quick_copy_content@ == catalog.translate(language, "options.rss_quick_copy.content"@),
        labels.rss_quick_copy_all@ == catalog.translate(language, "options.rss_quick_copy.all"@),
        labels.unread_label_position_before@ == catalog.translate(language, "options.unread_label_position.before"@),
        labels.unread_label_position_after@ == catalog.translate(language, "options.unread_label_position.after"@),
        labels.list_date_always@ == catalog.translate(language, "options.list_date.always"@),
        labels.list_date_never@ == catalog.translate(language, "options.list_date.never"@),
        labels.list_time_always@ == catalog.translate(language, "options.list_time.always"@),
        labels.list_time_never@ == catalog.translate(language, "options.list_time.never"@),
        labels.list_time_only_if_multiple_same_day@ == catalog.translate(language, "options.list_time.only_if_multiple_same_day"@),
        labels.ok@ == catalog.translate(language, "options.ok"@),
        labels.cancel@ == catalog.translate(language, "options.cancel"@),
        labels.voices_empty@ == catalog.translate(language, "options.voices.empty"@),
{
    let title = catalog.tr(language, "options.title");
    let tab_general = catalog.tr(language, "options.tab.general");
    let tab_voice = catalog.tr(language, "options.tab.voice");
    let tab_editor = catalog.tr(language, "options.tab.editor");
    let tab_audio = catalog.tr(language, "options.tab.audio");
    let tab_rss_podcast = catalog.tr(language, "options.tab.rss_podcast");
    let tab_ai_transcription = catalog.tr(language, "options.tab.ai_transcription");
    let tab_shortcuts = catalog.tr(language, "options.shortcuts.tab");
    let label_language = catalog.tr(language, "options.label.language");
    let label_modified_marker_position = catalog.tr(language, "options.label.modified_marker_position");
    let label_open = catalog.tr(language, "options.label.open");
    let label_tts_engine = catalog.tr(language, "options.label.tts_engine");
    let label_tts_voice_language = catalog.tr(language, "options.label.voice_language");
    let label_voice_profile = catalog.tr(language, "options.label.voice_profile");
    let label_voice = catalog.tr(language, "options.label.voice");
    let button_rename_voice_profile = catalog.tr(language, "options.button.apply_selected_profile");
    let button_add_voice_profile = catalog.tr(language, "options.button.add_profile");
    let button_delete_voice_profile = catalog.tr(language, "options.button.delete_profile");
    let button_manage_google_voices = catalog.tr(language, "menu.google_voices");
    let label_multilingual = catalog.tr(language, "options.label.multilingual");
    let label_use_dialogue_voice = catalog.tr(language, "options.label.use_dialogue_voice");
    let label_dialogue_voice = catalog.tr(language, "options.label.dialogue_voice");
    let label_dialogue_voice_preview = catalog.tr(language, "options.label.dialogue_voice_preview");
    let label_dialogue_engine = catalog.tr(language, "options.label.tts_engine");
    let label_dialogue_voice_language = catalog.tr(language, "options.label.voice_language");
    let label_dialogue_voice_rate = catalog.tr(language, "tts_tuning.label_speed");
    let label_dialogue_voice_pitch = catalog.tr(language, "tts_tuning.label_pitch");
    let label_dialogue_voice_volume = catalog.tr(language, "tts_tuning.label_volume");
    let label_dialogue_use_secondary_voice = catalog.tr(language, "options.label.dialogue_use_secondary_voice");
    let label_dialogue_secondary_engine = catalog.tr(language, "options.label.dialogue_secondary_engine");
    let label_dialogue_secondary_voice_language = catalog.tr(language, "options.label.dialogue_secondary_voice_language");
    let label_dialogue_secondary_voice = catalog.tr(language, "options.label.dialogue_secondary_voice");
    let label_dialogue_open_quote = catalog.tr(language, "dialogue_voice.apply.open_quote_title");
    let label_dialogue_close_quote = catalog.tr(language, "dialogue_voice.apply.close_quote_title");
    let label_dialogue_allow_multiline = catalog.tr(language, "dialogue_voice.apply.multiline_body");
    let label_tts_speed = catalog.tr(language, "tts_tuning.label_speed");
    let label_tts_pitch = catalog.tr(language, "tts_tuning.label_pitch");
    let label_tts_volume = catalog.tr(language, "tts_tuning.label_volume");
    let label_tts_preview = catalog.tr(language, "options.label.voice_preview");
    let label_tts_insert_tag = catalog.tr(language, "options.label.insert_voice_tag");
    let label_tts_insert_pause = catalog.tr(language, "options.label.insert_pause_tag");
    let label_tts_manual_tuning = catalog.tr(language, "options.label.tts_manual_tuning");
    let label_split_on_newline = catalog.tr(language, "options.label.split_on_newline");
    let label_word_wrap = catalog.tr(language, "options.label.word_wrap");
    let label_editor_escape_closes_window = catalog.tr(language, "options.label.editor_escape_closes_window");
    let label_editor_up_down_moves_to_line_start = catalog.tr(language, "options.label.editor_up_down_moves_to_line_start");
    let label_smart_quotes = catalog.tr(language, "options.label.smart_quotes");
    let label_strip_markdown_keep_bullets = catalog.tr(language, "options.label.strip_markdown_keep_bullets");
    let label_spellcheck = catalog.tr(language, "options.label.spellcheck");
    let label_spellcheck_language = catalog.tr(language, "options.label.spellcheck_language");
    let label_dictionary_translation = catalog.tr(language, "options.label.dictionary_translation");
    let label_wikipedia_language = catalog.tr(language, "options.label.wikipedia_language");
    let label_wrap_width = catalog.tr(language, "options.label.wrap_width");
    let label_indentation = catalog.tr(language, "options.label.indentation");
    let indent_default = catalog.tr(language, "options.indent.default");
    let indent_tabs = catalog.tr(language, "options.indent.tabs");
    let indent_spaces = catalog.tr(language, "options.indent.spaces");
    let label_tab_width = catalog.tr(language, "options.label.tab_width");
    let label_space_width = catalog.tr(language, "options.label.space_width");
    let label_quote_prefix = catalog.tr(language, "options.label.quote_prefix");
    let label_interpreter_path = catalog.tr(language, "options.label.interpreter_path");
    let label_interpreter_browse = catalog.tr(language, "options.button.browse");
    let label_interpreter_search = catalog.tr(language, "options.button.search_computer");
    let label_subtitle_mode = catalog.tr(language, "options.label.subtitle_mode");
    let label_move_cursor = catalog.tr(language, "options.label.move_cursor");
    let label_check_updates = catalog.tr(language, "options.label.check_updates");
    let label_check_beta_updates = catalog.tr_or(language, "options.label.check_beta_updates", "Check beta updates");
    let label_send_crash_reports = catalog.tr(language, "options.label.send_crash_reports");
    let label_use_legacy_name = catalog.tr(language, "options.label.legacy_name");
    let label_context_menu = catalog.tr(language, "options.label.context_menu");
    let label_group_tools_menu_by_category = catalog.tr(language, "options.label.group_tools_menu_by_category");
    let label_confirm_delete_rss_mode = catalog.tr(language, "options.label.confirm_delete_rss_mode");
    let label_confirm_delete_podcast_mode = catalog.tr(language, "options.label.confirm_delete_podcast_mode");
    let label_rss_quick_copy_mode = catalog.tr(language, "options.label.rss_quick_copy_mode");
    let label_file_associations = catalog.tr(language, "options.label.file_associations");
    let label_manage_associations = catalog.tr(language, "options.button.manage_associations");
    let label_manage_site_credentials = catalog.tr(language, "options.manage_site_credentials");
    let label_prompt_program = catalog.tr(language, "options.label.prompt_program");
    let label_network_proxy = catalog.tr(language, "options.label.network_proxy");
    let label_network_proxy_port = catalog.tr(language, "options.label.network_proxy_port");
    let label_network_proxy_username = catalog.tr(language, "options.label.network_proxy_username");
    let label_network_proxy_password = catalog.tr(language, "options.label.network_proxy_password");
    let label_shortcut_action = catalog.tr(language, "options.shortcuts.label_action");
    let label_shortcut_value = catalog.tr(language, "options.shortcuts.label_combination");
    let label_shortcut_change = catalog.tr(language, "options.shortcuts.button_change");
    let label_shortcut_reset = catalog.tr(language, "options.shortcuts.button_default");
    let label_shortcut_reset_all = catalog.tr(language, "options.shortcuts.button_reset_all");
    let label_audio_skip = catalog.tr(language, "options.label.audio_skip");
    let label_default_save_folder_kind = catalog.tr_or(language, "options.label.default_save_folder_kind", "Default folder type:");
    let option_default_save_folder_audiobooks = catalog.tr_or(language, "options.choice.default_save_folder.audiobooks", "Audiobooks");
    let option_default_save_folder_audio_descriptions = catalog.tr_or(language, "options.choice.default_save_folder.audio_descriptions", "Audio descriptions");
    let option_default_save_folder_media = catalog.tr_or(language, "options.choice.default_save_folder.media", "Media");
    let option_default_save_folder_documents = catalog.tr_or(language, "options.choice.default_save_folder.documents", "Documents");
    let option_default_save_folder_radio = catalog.tr_or(language, "options.choice.default_save_folder.radio", "Radio recordings");
    let option_default_save_folder_tv = catalog.tr_or(language, "options.choice.default_save_folder.tv", "TV recordings");
    let label_audiobook_save_folder = catalog.tr_or(language, "options.label.default_save_folder_path", "Default folder path:");
    let label_audiobook_save_folder_browse = catalog.tr(language, "options.button.browse");
    let label_show_media_save_confirmation = catalog.tr(language, "options.label.show_media_save_confirmation");
    let label_audio_description_after_tv_recording = if language == Language::Italian { "Crea l'audiodescrizione dopo il termine della registrazione tv.".to_owned() } else { String::new() };
    let label_audio_split = catalog.tr(language, "options.label.audio_split");
    let label_audio_split_minutes = catalog.tr(language, "options.label.audio_split_minutes");
    let label_audio_split_parts_count = catalog.tr(language, "options.label.audio_split_parts_count");
    let label_audio_split_start_number = catalog.tr(language, "options.label.audio_split_start_number");
    let label_audiobook_part_naming = catalog.tr(language, "options.label.audiobook_part_naming");
    let label_audiobook_part_announcement = catalog.tr(language, "options.label.audiobook_part_announcement");
    let label_audio_split_text = catalog.tr(language, "options.label.audio_split_text");
    let label_audio_split_requires_newline = catalog.tr(language, "options.label.audio_split_requires_newline");
    let label_audio_split_epub_chapters = catalog.tr(language, "options.label.audio_split_epub_chapters");
    let option_audiobook_part_naming_title_number = catalog.tr(language, "options.choice.audiobook_part_naming.title_number");
    let option_audiobook_part_naming_number_only = catalog.tr(language, "options.choice.audiobook_part_naming.number_only");
    let option_audiobook_part_naming_number_title = catalog.tr(language, "options.choice.audiobook_part_naming.number_title");
    let option_audiobook_part_announcement_none = catalog.tr(language, "options.choice.audiobook_part_announcement.none");
    let option_audiobook_part_announcement_title = catalog.tr(language, "options.choice.audiobook_part_announcement.title");
    let option_audiobook_part_announcement_title_part = catalog.tr(language, "options.choice.audiobook_part_announcement.title_part_number");
    let option_audiobook_part_announcement_file_name = catalog.tr(language, "options.choice.audiobook_part_announcement.file_name");
    let option_audiobook_part_announcement_file_name_part = catalog.tr(language, "options.choice.audiobook_part_announcement.file_name_part_number");
    let label_subtitle_ducking = catalog.tr(language, "options.label.subtitle_ducking");
    let label_subtitle_offset = catalog.tr(language, "options.label.subtitle_offset");
    let label_podcast_cache_limit = catalog.tr(language, "options.label.podcast_cache_limit");
    let label_rss_show_article_preview = catalog.tr(language, "options.label.rss_show_article_preview");
    let label_announce_unread_rss_podcast = catalog.tr(language, "options.label.announce_unread_rss_podcast");
    let label_unread_label_position = catalog.tr(language, "options.label.unread_label_position");
    let label_rss_date_display = catalog.tr(language, "options.label.rss_date_display");
    let label_rss_time_display = catalog.tr(language, "options.label.rss_time_display");
    let label_podcast_date_display = catalog.tr(language, "options.label.podcast_date_display");
    let label_podcast_time_display = catalog.tr(language, "options.label.podcast_time_display");
    let label_podcast_directory_country = catalog.tr_or(language, "options.label.podcast_directory_country", "Podcast directory country");
    let option_automatic = catalog.tr_or(language, "options.choice.automatic", "Automatic");
    let label_podcastindex_key = catalog.tr(language, "options.label.podcastindex_key");
    let label_podcastindex_secret = catalog.tr(language, "options.label.podcastindex_secret");
    let label_rai_luce_code = catalog.tr_or(language, "options.label.rai_luce_code", "Codice Sonarpad per funzioni aggiuntive");
    let label_whisper_model = catalog.tr(language, "options.label.whisper_model");
    let label_whisper_cuda = catalog.tr(language, "options.label.whisper_cuda");
    let label_whisper_audio_language = catalog.tr(language, "options.label.whisper_audio_language");
    let label_whisper_include_timestamps = catalog.tr(language, "options.label.whisper_include_timestamps");
    let label_gemini_api_key = catalog.tr(language, "options.gemini_api_key");
    let button_gemini_get_key = catalog.tr(language, "options.gemini_get_key");
    let label_gemini_model = catalog.tr(language, "options.gemini_model");
    let button_gemini_refresh_models = catalog.tr(language, "options.gemini_refresh_models");
    let label_dictation_microphone = catalog.tr(language, "podcast.mic_device");
    let option_podcast_device_default = catalog.tr(language, "podcast.device.default");
    let whisper_model_small = catalog.tr(language, "options.whisper_model.small");
    let whisper_model_medium = catalog.tr(language, "options.whisper_model.medium");
    let whisper_model_large = catalog.tr(language, "options.whisper_model.large");
    let label_podcastindex_signup = catalog.tr(language, "options.button.podcastindex_signup");
    let lang_it = catalog.tr(language, "options.lang.it");
    let lang_en = catalog.tr(language, "options.lang.en");
    let lang_es = catalog.tr(language, "options.lang.es");
    let lang_pt = catalog.tr(language, "options.lang.pt");
    let lang_pt_br = catalog.tr(language, "options.lang.pt_br");
    let lang_sv = catalog.tr(language, "options.lang.sv");
    let lang_vi = catalog.tr(language, "options.lang.vi");
    let lang_cs = catalog.tr(language, "options.lang.cs");
    let lang_pl = catalog.tr(language, "options.lang.pl");
    let lang_fr = catalog.tr(language, "options.lang.fr");
    let lang_sr = catalog.tr_or(language, "options.lang.sr", "Serbian");
    let lang_uk = catalog.tr_or(language, "options.lang.uk", "Ukrainian");
    let lang_lt = catalog.tr_or(language, "options.lang.lt", "Lithuanian");
    let lang_ru = catalog.tr_or(language, "options.lang.ru", "Russian");
    let lang_zh = catalog.tr_or(language, "options.lang.zh", "Chinese");
    let lang_de = catalog.tr(language, "options.lang.de");
    let lang_hi = catalog.tr_or(language, "options.lang.hi", "Hindi");
    let marker_position_end = catalog.tr(language, "options.modified_marker_position.end");
    let marker_position_beginning = catalog.tr(language, "options.modified_marker_position.beginning");
    let open_new_tab = catalog.tr(language, "options.open.new_tab");
    let open_new_window = catalog.tr(language, "options.open.new_window");
    let engine_edge = catalog.tr(language, "options.engine.edge");
    let engine_google = catalog.tr(language, "options.engine.google");
    let engine_sapi5 = catalog.tr(language, "options.engine.sapi5");
    let engine_sapi4 = "SAPI 4".to_owned();
    let subtitle_mode_off = catalog.tr(language, "options.subtitle_mode.off");
    let subtitle_mode_nvda = catalog.tr(language, "options.subtitle_mode.nvda");
    let subtitle_mode_user = catalog.tr(language, "options.subtitle_mode.user");
    let subtitle_mode_record = catalog.tr(language, "options.subtitle_mode.record");
    let split_none = catalog.tr(language, "options.split.none");
    let split_by_time = catalog.tr(language, "options.split.by_time");
    let split_by_text = catalog.tr(language, "options.split.by_text");
    let split_by_parts = catalog.tr(language, "options.split.by_parts");
    let spellcheck_lang_follow = catalog.tr(language, "options.spellcheck.lang.follow");
    let spellcheck_lang_en_us = catalog.tr(language, "options.spellcheck.lang.en_us");
    let spellcheck_lang_en_gb = catalog.tr(language, "options.spellcheck.lang.en_gb");
    let spellcheck_lang_it = catalog.tr(language, "options.spellcheck.lang.it");
    let spellcheck_lang_es = catalog.tr(language, "options.spellcheck.lang.es");
    let spellcheck_lang_pt_br = catalog.tr(language, "options.spellcheck.lang.pt_br");
    let spellcheck_lang_fr = catalog.tr(language, "options.spellcheck.lang.fr");
    let spellcheck_lang_de = catalog.tr(language, "options.spellcheck.lang.de");
    let spellcheck_lang_ru = catalog.tr(language, "options.spellcheck.lang.ru");
    let spellcheck_lang_hi = catalog.tr(language, "options.spellcheck.lang.hi");
    let dictionary_translation_auto = catalog.tr(language, "options.dictionary_translation.auto");
    let dictionary_translation_none = catalog.tr(language, "options.dictionary_translation.none");
    let wikipedia_language_auto = catalog.tr(language, "options.wikipedia_language.auto");
    let prompt_cmd = catalog.tr(language, "options.prompt.cmd");
    let prompt_powershell = catalog.tr(language, "options.prompt.powershell");
    let prompt_codex = catalog.tr(language, "options.prompt.codex");
    let confirm_delete_feed = catalog.tr(language, "options.confirm_delete.feed");
    let confirm_delete_article = catalog.tr(language, "options.confirm_delete.article");
    let confirm_delete_podcast = catalog.tr(language, "options.confirm_delete.podcast");
    let confirm_delete_episode = catalog.tr(language, "options.confirm_delete.episode");
    let confirm_delete_both = catalog.tr(language, "options.confirm_delete.both");
    let confirm_delete_none = catalog.tr(language, "options.confirm_delete.none");
    let rss_quick_copy_title = catalog.tr(language, "options.rss_quick_copy.title");
    let rss_quick_copy_url = catalog.tr(language, "options.rss_quick_copy.url");
    let rss_quick_copy_content = catalog.tr(language, "options.rss_quick_copy.content");
    let rss_quick_copy_all = catalog.tr(language, "options.rss_quick_copy.all");
    let unread_label_position_before = catalog.tr(language, "options.unread_label_position.before");
    let unread_label_position_after = catalog.tr(language, "options.unread_label_position.after");
    let list_date_always = catalog.tr(language, "options.list_date.always");
    let list_date_never = catalog.tr(language, "options.list_date.never");
    let list_time_always = catalog.tr(language, "options.list_time.always");
    let list_time_never = catalog.tr(language, "options.list_time.never");
    let list_time_only_if_multiple_same_day = catalog.tr(language, "options.list_time.only_if_multiple_same_day");
    let ok = catalog.tr(language, "options.ok");
    let cancel = catalog.tr(language, "options.cancel");
    let voices_empty = catalog.tr(language, "options.voices.empty");
    OptionsLabels {
        title,
        tab_general,
        tab_voice,
        tab_editor,
        tab_audio,
        tab_rss_podcast,
        tab_ai_transcription,
        tab_shortcuts,
        label_language,
        label_modified_marker_position,
        label_open,
        label_tts_engine,
        label_tts_voice_language,
        label_voice_profile,
        label_voice,
        button_rename_voice_profile,
        button_add_voice_profile,
        button_delete_voice_profile,
        button_manage_google_voices,
        label_multilingual,
        label_use_dialogue_voice,
        label_dialogue_voice,
        label_dialogue_voice_preview,
        label_dialogue_engine,
        label_dialogue_voice_language,
        label_dialogue_voice_rate,
        label_dialogue_voice_pitch,
        label_dialogue_voice_volume,
        label_dialogue_use_secondary_voice,
        label_dialogue_secondary_engine,
        label_dialogue_secondary_voice_language,
        label_dialogue_secondary_voice,
        label_dialogue_open_quote,
        label_dialogue_close_quote,
        label_dialogue_allow_multiline,
        label_tts_speed,
        label_tts_pitch,
        label_tts_volume,
        label_tts_preview,
        label_tts_insert_tag,
        label_tts_insert_pause,
        label_tts_manual_tuning,
        label_split_on_newline,
        label_word_wrap,
        label_editor_escape_closes_window,
        label_editor_up_down_moves_to_line_start,
        label_smart_quotes,
        label_strip_markdown_keep_bullets,
        label_spellcheck,
        label_spellcheck_language,
        label_dictionary_translation,
        label_wikipedia_language,
        label_wrap_width,
        label_indentation,
        indent_default,
        indent_tabs,
        indent_spaces,
        label_tab_width,
        label_space_width,
        label_quote_prefix,
        label_interpreter_path,
        label_interpreter_browse,
        label_interpreter_search,
        label_subtitle_mode,
        label_move_cursor,
        label_check_updates,
        label_check_beta_updates,
        label_send_crash_reports,
        label_use_legacy_name,
        label_context_menu,
        label_group_tools_menu_by_category,
        label_confirm_delete_rss_mode,
        label_confirm_delete_podcast_mode,
        label_rss_quick_copy_mode,
        label_file_associations,
        label_manage_associations,
        label_manage_site_credentials,
        label_prompt_program,
        label_network_proxy,
        label_network_proxy_port,
        label_network_proxy_username,
        label_network_proxy_password,
        label_shortcut_action,
        label_shortcut_value,
        label_shortcut_change,
        label_shortcut_reset,
        label_shortcut_reset_all,
        label_audio_skip,
        label_default_save_folder_kind,
        option_default_save_folder_audiobooks,
        option_default_save_folder_audio_descriptions,
        option_default_save_folder_media,
        option_default_save_folder_documents,
        option_default_save_folder_radio,
        option_default_save_folder_tv,
        label_audiobook_save_folder,
        label_audiobook_save_folder_browse,
        label_show_media_save_confirmation,
        label_audio_description_after_tv_recording,
        label_audio_split,
        label_audio_split_minutes,
        label_audio_split_parts_count,
        label_audio_split_start_number,
        label_audiobook_part_naming,
        label_audiobook_part_announcement,
        label_audio_split_text,
        label_audio_split_requires_newline,
        label_audio_split_epub_chapters,
        option_audiobook_part_naming_title_number,
        option_audiobook_part_naming_number_only,
        option_audiobook_part_naming_number_title,
        option_audiobook_part_announcement_none,
        option_audiobook_part_announcement_title,
        option_audiobook_part_announcement_title_part,
        option_audiobook_part_announcement_file_name,
        option_audiobook_part_announcement_file_name_part,
        label_subtitle_ducking,
        label_subtitle_offset,
        label_podcast_cache_limit,
        label_rss_show_article_preview,
        label_announce_unread_rss_podcast,
        label_unread_label_position,
        label_rss_date_display,
        label_rss_time_display,
        label_podcast_date_display,
        label_podcast_time_display,
        label_podcast_directory_country,
        option_automatic,
        label_podcastindex_key,
        label_podcastindex_secret,
        label_rai_luce_code,
        label_whisper_model,
        label_whisper_cuda,
        label_whisper_audio_language,
        label_whisper_include_timestamps,
        label_gemini_api_key,
        button_gemini_get_key,
        label_gemini_model,
        button_gemini_refresh_models,
        label_dictation_microphone,
        option_podcast_device_default,
        whisper_model_small,
        whisper_model_medium,
        whisper_model_large,
        label_podcastindex_signup,
        lang_it,
        lang_en,
        lang_es,
        lang_pt,
        lang_pt_br,
        lang_sv,
        lang_vi,
        lang_cs,
        lang_pl,
        lang_fr,
        lang_sr,
        lang_uk,
        lang_lt,
        lang_ru,
        lang_zh,
        lang_de,
        lang_hi,
        marker_position_end,
        marker_position_beginning,
        open_new_tab,
        open_new_window,
        engine_edge,
        engine_google,
        engine_sapi5,
        engine_sapi4,
        subtitle_mode_off,
        subtitle_mode_nvda,
        subtitle_mode_user,
        subtitle_mode_record,
        split_none,
        split_by_time,
        split_by_text,
        split_by_parts,
        spellcheck_lang_follow,
        spellcheck_lang_en_us,
        spellcheck_lang_en_gb,
        spellcheck_lang_it,
        spellcheck_lang_es,
        spellcheck_lang_pt_br,
        spellcheck_lang_fr,
        spellcheck_lang_de,
        spellcheck_lang_ru,
        spellcheck_lang_hi,
        dictionary_translation_auto,
        dictionary_translation_none,
        wikipedia_language_auto,
        prompt_cmd,
        prompt_powershell,
        prompt_codex,
        confirm_delete_feed,
        confirm_delete_article,
        confirm_delete_podcast,
        confirm_delete_episode,
        confirm_delete_both,
        confirm_delete_none,
        rss_quick_copy_title,
        rss_quick_copy_url,
        rss_quick_copy_content,
        rss_quick_copy_all,
        unread_label_position_before,
        unread_label_position_after,
        list_date_always,
        list_date_never,
        list_time_always,
        list_time_never,
        list_time_only_if_multiple_same_day,
        ok,
        cancel,
        voices_empty,
    }
}

/// The name of German in `language`, used when the catalog has none.
pub open spec fn german_name_spec(language: Language) -> Seq<char> {
    match language {
        Language::Italian => "Tedesco"@,
        Language::Spanish => "Aleman"@,
        Language::Portuguese => "Alemao"@,
        Language::PortugueseBrazilian => "Alemão"@,
        Language::French => "Allemand"@,
        Language::German => "Deutsch"@,
        _ => "German"@,
    }
}

/// The name under which the voice language `code` is shown: its translation
/// `voice.lang.<code>` when the catalog has one; otherwise the dialog's name
/// for that language; otherwise the code in upper case.
pub open spec fn voice_language_name_spec(
    catalog: Catalog,
    language: Language,
    labels: OptionsLabels,
    code: Seq<char>,
) -> Seq<char> {
    let key = "voice.lang."@ + code;
    let localized = catalog.translate(language, key);
    if localized != key {
        localized
    } else if code == "it"@ {
        labels.lang_it@
    } else if code == "en"@ {
        labels.lang_en@
    } else if code == "es"@ {
        labels.lang_es@
    } else if code == "pt"@ {
        labels.lang_pt@
    } else if code == "sv"@ {
        labels.lang_sv@
    } else if code == "vi"@ {
        labels.lang_vi@
    } else if code == "cs"@ {
        labels.lang_cs@
    } else if code == "pl"@ {
        labels.lang_pl@
    } else if code == "fr"@ {
        labels.lang_fr@
    } else if code == "sr"@ {
        labels.lang_sr@
    } else if code == "uk"@ {
        labels.lang_uk@
    } else if code == "lt"@ {
        labels.lang_lt@
    } else if code == "ru"@ {
        labels.lang_ru@
    } else if code == "zh"@ {
        labels.lang_zh@
    } else if code == "hi"@ {
        labels.lang_hi@
    } else if code == "de"@ {
        german_name_spec(language)
    } else {
        upper_seq(code)
    }
}

/// The name under which the voice language `code` is shown.
pub fn localized_voice_language_name(
    catalog: &Catalog,
    language: Language,
    labels: &OptionsLabels,
    code: &str,
) -> (name: String)
    ensures
        name@ == voice_language_name_spec(*catalog, language, *labels, code@),
{
    let key = concat_str("voice.lang.", code);
    let localized = catalog.tr(language, key.as_str());
    if localized != key {
        return localized;
    }
    if str_equals(code, "it") {
        labels.lang_it.clone()
    } else if str_equals(code, "en") {
        labels.lang_en.clone()
    } else if str_equals(code, "es") {
        labels.lang_es.clone()
    } else if str_equals(code, "pt") {
        labels.lang_pt.clone()
    } else if str_equals(code, "sv") {
        labels.lang_sv.clone()
    } else if str_equals(code, "vi") {
        labels.lang_vi.clone()
    } else if str_equals(code, "cs") {
        labels.lang_cs.clone()
    } else if str_equals(code, "pl") {
        labels.lang_pl.clone()
    } else if str_equals(code, "fr") {
        labels.lang_fr.clone()
    } else if str_equals(code, "sr") {
        labels.lang_sr.clone()
    } else if str_equals(code, "uk") {
        labels.lang_uk.clone()
    } else if str_equals(code, "lt") {
        labels.lang_lt.clone()
    } else if str_equals(code, "ru") {
        labels.lang_ru.clone()
    } else if str_equals(code, "zh") {
        labels.lang_zh.clone()
    } else if str_equals(code, "hi") {
        labels.lang_hi.clone()
    } else if str_equals(code, "de") {
        match language {
            Language::Italian => "Tedesco".to_owned(),
            Language::Spanish => "Aleman".to_owned(),
            Language::Portuguese => "Alemao".to_owned(),
            Language::PortugueseBrazilian => "Alemão".to_owned(),
            Language::French => "Allemand".to_owned(),
            Language::German => "Deutsch".to_owned(),
            _ => "German".to_owned(),
        }
    } else {
        to_ascii_uppercase(code)
    }
}

/// The name of a podcast-directory country: the translation of
/// `options.podcast_country.<code>`, or `fallback` when the catalog has none.
pub fn podcast_country_label(catalog: &Catalog, language: Language, code: &str, fallback: &str) -> (label: String)
    ensures
        label@ == catalog.translate_or(language, "options.podcast_country."@ + code@, fallback@),
{
    let key = concat_str("options.podcast_country.", code);
    catalog.tr_or(language, key.as_str(), fallback)
}

} // verus!
