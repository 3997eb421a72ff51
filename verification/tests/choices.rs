use sonarpad_options::choices::{
    audio_description_after_tv_recording, cache_limit_from_text, confirm_delete_rss_podcast, date_display_from_selection,
    date_display_position, device_from_selection, device_position, dialogue_quotes_from_text,
    dictionary_translation_from_selection, dictionary_translation_position, indent_width_from_selection,
    indent_width_position, indentation_mode_from_selection, indentation_mode_position, marker_from_selection,
    marker_position, numbered_from_selection, numbered_position, open_behavior_from_selection, open_behavior_position,
    part_announcement_from_selection, part_announcement_position, part_announcement_setting, part_naming_from_selection,
    part_naming_position, part_naming_setting, podcast_confirm_mode_from_selection, podcast_confirm_mode_position,
    podcast_country_from_selection, podcast_country_position, prompt_program_from_selection, prompt_program_position,
    quick_copy_mode_from_selection, quick_copy_mode_position, rss_confirm_mode_from_selection, rss_confirm_mode_position,
    skip_from_selection, skip_position, spellcheck_from_selection, spellcheck_position, split_from_selection,
    split_parts_shown, split_position, subtitle_mode_from_selection, subtitle_mode_position,
    subtitle_offset_from_text, time_display_from_selection, time_display_position, ui_language_from_selection,
    unread_label_from_selection, unread_label_position, whisper_language_from_selection, whisper_language_position,
    whisper_model_from_selection, whisper_model_position, wikipedia_language_from_selection,
    wikipedia_language_position, wrap_width_from_text, SplitError, DEFAULT_DIALOGUE_CLOSING_QUOTES,
    DEFAULT_DIALOGUE_OPENING_QUOTES,
};
use sonarpad_options::model::{
    AudiobookPartAnnouncementMode, AudiobookPartNamingMode, AudiobookSplit, IndentationMode, Language,
    ListDateDisplayMode, ListTimeDisplayMode, ModifiedMarkerPosition, OpenBehavior, PodcastDeleteConfirmMode,
    RssDeleteConfirmMode, RssPodcastUnreadLabelPosition, RssQuickCopyMode, SpellcheckLanguageMode, SubtitleReadMode,
};

#[test]
fn fixed_lists_round_trip() {
    for v in [ModifiedMarkerPosition::End, ModifiedMarkerPosition::Beginning] {
        assert_eq!(marker_from_selection(marker_position(v) as isize), v);
    }
    for v in [OpenBehavior::NewTab, OpenBehavior::NewWindow] {
        assert_eq!(open_behavior_from_selection(open_behavior_position(v) as isize), v);
    }
    for v in [IndentationMode::Default, IndentationMode::Tabs, IndentationMode::Spaces] {
        assert_eq!(indentation_mode_from_selection(indentation_mode_position(v) as isize), v);
    }
    for v in [SubtitleReadMode::Off, SubtitleReadMode::Nvda, SubtitleReadMode::User, SubtitleReadMode::Record] {
        assert_eq!(subtitle_mode_from_selection(subtitle_mode_position(v) as isize), v);
    }
    for v in [RssDeleteConfirmMode::Feed, RssDeleteConfirmMode::Article, RssDeleteConfirmMode::Both, RssDeleteConfirmMode::Never] {
        assert_eq!(rss_confirm_mode_from_selection(rss_confirm_mode_position(v) as isize), v);
    }
    for v in [
        PodcastDeleteConfirmMode::Podcast,
        PodcastDeleteConfirmMode::Episode,
        PodcastDeleteConfirmMode::Both,
        PodcastDeleteConfirmMode::Never,
    ] {
        assert_eq!(podcast_confirm_mode_from_selection(podcast_confirm_mode_position(v) as isize), v);
    }
    for v in [RssQuickCopyMode::Title, RssQuickCopyMode::Url, RssQuickCopyMode::Content, RssQuickCopyMode::All] {
        assert_eq!(quick_copy_mode_from_selection(quick_copy_mode_position(v) as isize), v);
    }
    for v in [RssPodcastUnreadLabelPosition::Before, RssPodcastUnreadLabelPosition::After] {
        assert_eq!(unread_label_from_selection(unread_label_position(v) as isize), v);
    }
    for v in [ListDateDisplayMode::Always, ListDateDisplayMode::Never] {
        assert_eq!(date_display_from_selection(date_display_position(v) as isize), v);
    }
    for v in [ListTimeDisplayMode::Always, ListTimeDisplayMode::Never, ListTimeDisplayMode::OnlyIfMultipleSameDay] {
        assert_eq!(time_display_from_selection(time_display_position(v) as isize), v);
    }
    for v in [AudiobookPartNamingMode::TitleNumber, AudiobookPartNamingMode::NumberOnly, AudiobookPartNamingMode::NumberTitle] {
        assert_eq!(part_naming_from_selection(part_naming_position(v) as isize), v);
    }
    for v in [
        AudiobookPartAnnouncementMode::Silent,
        AudiobookPartAnnouncementMode::Title,
        AudiobookPartAnnouncementMode::TitlePartNumber,
        AudiobookPartAnnouncementMode::FileName,
        AudiobookPartAnnouncementMode::FileNamePartNumber,
    ] {
        assert_eq!(part_announcement_from_selection(part_announcement_position(v) as isize), v);
    }
}

#[test]
fn fixed_lists_have_defaults_for_other_entries() {
    assert_eq!(rss_confirm_mode_from_selection(2), RssDeleteConfirmMode::Both);
    assert_eq!(rss_confirm_mode_from_selection(-1), RssDeleteConfirmMode::Both);
    assert_eq!(podcast_confirm_mode_from_selection(7), PodcastDeleteConfirmMode::Both);
    assert_eq!(subtitle_mode_from_selection(-1), SubtitleReadMode::Off);
    assert_eq!(quick_copy_mode_from_selection(9), RssQuickCopyMode::Title);
    assert_eq!(marker_from_selection(-1), ModifiedMarkerPosition::End);
    assert_eq!(part_naming_setting(-1, AudiobookPartNamingMode::NumberTitle), AudiobookPartNamingMode::NumberTitle);
    assert_eq!(part_naming_setting(5, AudiobookPartNamingMode::NumberTitle), AudiobookPartNamingMode::TitleNumber);
    assert_eq!(
        part_announcement_setting(-1, AudiobookPartAnnouncementMode::FileName),
        AudiobookPartAnnouncementMode::FileName
    );
    assert_eq!(
        part_announcement_setting(3, AudiobookPartAnnouncementMode::Silent),
        AudiobookPartAnnouncementMode::FileName
    );
}

#[test]
fn spellcheck_choices() {
    assert_eq!(spellcheck_position(SpellcheckLanguageMode::FollowEditorLanguage, "de-DE"), 0);
    assert_eq!(spellcheck_position(SpellcheckLanguageMode::FixedLanguage, "pl-PL"), 8);
    assert_eq!(spellcheck_position(SpellcheckLanguageMode::FixedLanguage, "xx-XX"), 0);
    assert_eq!(
        spellcheck_from_selection(0, "de-DE"),
        (SpellcheckLanguageMode::FollowEditorLanguage, "de-DE".to_string())
    );
    assert_eq!(spellcheck_from_selection(10, "de-DE"), (SpellcheckLanguageMode::FixedLanguage, "hi-IN".to_string()));
    assert_eq!(spellcheck_from_selection(-1, "de-DE"), (SpellcheckLanguageMode::FixedLanguage, "en-US".to_string()));
    assert_eq!(spellcheck_from_selection(11, "de-DE"), (SpellcheckLanguageMode::FixedLanguage, "en-US".to_string()));
    for code in ["en-US", "en-GB", "it-IT", "es-ES", "pt-BR", "fr-FR", "de-DE", "pl-PL", "ru-RU", "hi-IN"] {
        let p = spellcheck_position(SpellcheckLanguageMode::FixedLanguage, code);
        assert_eq!(spellcheck_from_selection(p as isize, "x"), (SpellcheckLanguageMode::FixedLanguage, code.to_string()));
    }
}

#[test]
fn dictionary_and_wikipedia_languages() {
    assert_eq!(dictionary_translation_position(" EN "), 3);
    assert_eq!(dictionary_translation_position("none"), 1);
    assert_eq!(dictionary_translation_position("klingon"), 0);
    assert_eq!(dictionary_translation_from_selection(3), "en");
    assert_eq!(dictionary_translation_from_selection(-1), "auto");
    assert_eq!(wikipedia_language_position("it"), 1);
    assert_eq!(wikipedia_language_from_selection(14), "hi");
    for code in ["auto", "none", "it", "en", "es", "pt", "sv", "vi", "cs", "pl", "fr", "uk", "lt", "ru", "zh", "hi"] {
        let p = dictionary_translation_position(code);
        assert_eq!(dictionary_translation_from_selection(p as isize), code);
    }
}

#[test]
fn german_dictionary_and_wikipedia_language_come_back_as_auto() {
    let p = dictionary_translation_position("de");
    assert_eq!(p, 16);
    assert_eq!(dictionary_translation_from_selection(p as isize), "auto");
    let q = wikipedia_language_position("de");
    assert_eq!(q, 15);
    assert_eq!(wikipedia_language_from_selection(q as isize), "auto");
}

#[test]
fn whisper_models_and_prompt_programs() {
    for m in ["small_q5_1", "medium_q5_0", "large_v3_turbo_q5_0"] {
        assert_eq!(whisper_model_from_selection(whisper_model_position(m) as isize), m);
    }
    assert_eq!(whisper_model_position("tiny"), 0);
    assert_eq!(prompt_program_position("C:\\Windows\\PowerShell.exe"), 1);
    assert_eq!(prompt_program_position("codex --full-auto"), 2);
    assert_eq!(prompt_program_position("bash"), 0);
    assert_eq!(prompt_program_from_selection(1), "powershell.exe");
    assert_eq!(prompt_program_from_selection(2), "codex");
    assert_eq!(prompt_program_from_selection(-1), "cmd.exe");
}

#[test]
fn numeric_lists() {
    assert_eq!(indent_width_position(6), 2);
    assert_eq!(indent_width_position(3), 0);
    assert_eq!(indent_width_from_selection(3, 4), 8);
    assert_eq!(indent_width_from_selection(-1, 4), 4);
    for w in [2u32, 4, 6, 8] {
        assert_eq!(indent_width_from_selection(indent_width_position(w) as isize, 0), w);
    }
    assert_eq!(skip_position(45), 13);
    assert_eq!(skip_position(61), 14);
    assert_eq!(skip_from_selection(skip_position(61) as isize, 5), 60);
    assert_eq!(skip_from_selection(23, 5), 7200);
    assert_eq!(skip_from_selection(-1, 5), 5);
    assert_eq!(numbered_position(60, 60), 59);
    assert_eq!(numbered_position(0, 60), 0);
    assert_eq!(numbered_from_selection(59, 60, 7), 60);
    assert_eq!(numbered_from_selection(80, 60, 7), 60);
    assert_eq!(numbered_from_selection(-1, 99, 7), 7);
    for m in 1..=99u32 {
        assert_eq!(numbered_from_selection(numbered_position(m, 99) as isize, 99, 0), m);
    }
}

#[test]
fn audio_split_choices() {
    let none = AudiobookSplit { by_time: false, by_text: false, parts: 0 };
    let time = AudiobookSplit { by_time: true, by_text: false, parts: 0 };
    let text = AudiobookSplit { by_time: false, by_text: true, parts: 0 };
    let parts = AudiobookSplit { by_time: false, by_text: false, parts: 12 };
    assert_eq!(split_position(none), 0);
    assert_eq!(split_position(time), 1);
    assert_eq!(split_position(text), 2);
    assert_eq!(split_position(parts), 3);
    assert_eq!(split_parts_shown(none), 2);
    assert_eq!(split_parts_shown(AudiobookSplit { by_time: false, by_text: false, parts: 500 }), 100);
    for s in [none, time, text, parts] {
        let shown = split_parts_shown(s).to_string();
        assert_eq!(split_from_selection(split_position(s) as isize, &shown, none), Ok(s));
    }
    assert_eq!(split_from_selection(3, " 100 ", none), Ok(AudiobookSplit { by_time: false, by_text: false, parts: 100 }));
    assert_eq!(split_from_selection(-1, "", parts), Ok(parts));
}

#[test]
fn audio_split_refuses_bad_part_counts() {
    let none = AudiobookSplit { by_time: false, by_text: false, parts: 0 };
    assert_eq!(split_from_selection(3, "0", none), Err(SplitError::InvalidPartsCount));
    assert_eq!(split_from_selection(3, "101", none), Err(SplitError::InvalidPartsCount));
    assert_eq!(split_from_selection(3, "ten", none), Err(SplitError::InvalidPartsCount));
    assert_eq!(split_from_selection(3, "", none), Err(SplitError::InvalidPartsCount));
}

#[test]
fn country_and_device_lists() {
    let codes: Vec<String> = ["it", "us", "gb"].iter().map(|s| s.to_string()).collect();
    assert_eq!(podcast_country_position(&codes, "us"), 2);
    assert_eq!(podcast_country_position(&codes, ""), 0);
    assert_eq!(podcast_country_position(&codes, "fr"), 0);
    assert_eq!(podcast_country_from_selection(2, &codes), "us");
    assert_eq!(podcast_country_from_selection(0, &codes), "");
    assert_eq!(podcast_country_from_selection(9, &codes), "");
    for c in ["it", "us", "gb", ""] {
        assert_eq!(podcast_country_from_selection(podcast_country_position(&codes, c) as isize, &codes), c);
    }
    let ids: Vec<String> = ["default", "mic-1", "mic-2"].iter().map(|s| s.to_string()).collect();
    assert_eq!(device_position(&ids, "mic-2"), 2);
    assert_eq!(device_position(&ids, "gone"), 0);
    assert_eq!(device_from_selection(-1, &ids, "fallback"), "default");
    assert_eq!(device_from_selection(5, &ids, "fallback"), "fallback");
    assert_eq!(device_from_selection(device_position(&ids, "mic-1") as isize, &ids, "fallback"), "mic-1");
}

#[test]
fn language_lists() {
    assert_eq!(ui_language_from_selection(16), Language::German);
    assert_eq!(ui_language_from_selection(-1), Language::Italian);
    assert_eq!(ui_language_from_selection(17), Language::Italian);
    assert_eq!(whisper_language_position(" en ", Language::Italian), 1);
    assert_eq!(whisper_language_position("xx", Language::French), 9);
    assert_eq!(whisper_language_from_selection(-1, Language::Polish), "pl");
    for code in ["it", "en", "es", "pt", "pt-BR", "sv", "vi", "cs", "pl", "fr", "sr", "uk", "lt", "ru", "zh", "hi", "de"] {
        let p = whisper_language_position(code, Language::English);
        assert_eq!(whisper_language_from_selection(p as isize, Language::English), code);
    }
}

#[test]
fn number_fields() {
    assert_eq!(wrap_width_from_text(" 72 ", 80), 72);
    assert_eq!(wrap_width_from_text("0", 80), 80);
    assert_eq!(wrap_width_from_text("wide", 80), 80);
    assert_eq!(subtitle_offset_from_text("-350", 0), -350);
    assert_eq!(subtitle_offset_from_text("", 120), 120);
    assert_eq!(cache_limit_from_text("50", 500), 100);
    assert_eq!(cache_limit_from_text("4096", 500), 2048);
    assert_eq!(cache_limit_from_text("700", 500), 700);
    assert_eq!(cache_limit_from_text("x", 500), 500);
    assert_eq!(wrap_width_from_text(&72u32.to_string(), 1), 72);
    assert_eq!(subtitle_offset_from_text(&(-42i32).to_string(), 0), -42);
}

#[test]
fn dialogue_quotes_and_flags() {
    assert_eq!(dialogue_quotes_from_text("  ", DEFAULT_DIALOGUE_OPENING_QUOTES), "\"|\u{201C}|\u{00AB}|\u{201E}");
    assert_eq!(dialogue_quotes_from_text(" « ", DEFAULT_DIALOGUE_CLOSING_QUOTES), "«");
    assert_eq!(DEFAULT_DIALOGUE_CLOSING_QUOTES, "\"|\u{201D}|\u{00BB}|\u{201C}");
    assert!(!confirm_delete_rss_podcast(RssDeleteConfirmMode::Never, PodcastDeleteConfirmMode::Never));
    assert!(confirm_delete_rss_podcast(RssDeleteConfirmMode::Never, PodcastDeleteConfirmMode::Episode));
    assert!(audio_description_after_tv_recording(Language::Italian, true));
    assert!(!audio_description_after_tv_recording(Language::English, true));
}
