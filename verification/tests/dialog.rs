use sonarpad_options::apply::{
    apply_effects, proxy_check_needed, proxy_settings_after_check, proxy_settings_from_fields, speech_unchanged,
    SpeechSettings, WatchedSettings,
};
use sonarpad_options::folders::{
    save_folder_kinds, selected_save_folder_kind, switch_save_folder_kind, trimmed_save_folders, SaveFolders,
    DEFAULT_SAVE_FOLDER_AUDIOBOOK, DEFAULT_SAVE_FOLDER_AUDIO_DESCRIPTION, DEFAULT_SAVE_FOLDER_MEDIA,
    DEFAULT_SAVE_FOLDER_TV,
};
use sonarpad_options::model::{
    IndentationMode, Language, ModifiedMarkerPosition, ShortcutBinding, ShortcutSettings, SpellcheckLanguageMode,
    TtsEngine, VoiceInfo,
};
use sonarpad_options::navigation::{
    dialog_key_action, handle_navigation, options_command, DialogKeyAction, KeyMessage, NavigationAction,
    NavigationInput, OptionsCommand,
};
use sonarpad_options::shortcuts::{ShortcutAction, ShortcutCaptureOutcome};
use sonarpad_options::tags::{custom_pause_milliseconds, pause_menu_choice, selected_voice_name, tag_rate_and_volume, PauseChoice};
use sonarpad_options::tuning::tts_tuning_limits_for_engine;
use sonarpad_options::visibility::{
    dialogue_control_state, group_visible, indentation_width_lists, split_controls, subtitle_ducking_visible,
    tab_change, ControlGroup, ControlState, DialogueControlRole, SplitControls, TabFollowUp,
};

fn binding(k: u16) -> ShortcutBinding {
    ShortcutBinding { ctrl: true, shift: true, alt: true, key: k }
}

fn shortcuts() -> ShortcutSettings {
    let b = binding;
    ShortcutSettings {
        read_pause_resume: b(0x30), read_start: b(0x31), read_previous_sentence: b(0x32), read_next_sentence: b(0x33),
        read_stop: b(0x34), execute_file: b(0x35), audiobook: b(0x36), batch_audiobooks: b(0x37),
        record_podcast: b(0x38), dictation: b(0x39), convert_audio: b(0x41), open_rss: b(0x42),
        open_podcasts: b(0x43), open_paths_navigation: b(0x44), open_radio: b(0x45), open_calendar: b(0x46),
        open_weather: b(0x47), open_cinema: b(0x48), open_dictionary: b(0x49), open_options: b(0x4A),
        open_terminal: b(0x4B), import_wikipedia: b(0x4C), import_youtube: b(0x4D), find: b(0x4E),
        quote_lines: b(0x4F), unquote_lines: b(0x50), media_prev: b(0x51), media_next: b(0x52),
        chapter_prev: b(0x53), chapter_next: b(0x54),
    }
}

fn input(message: KeyMessage, key: u16) -> NavigationInput {
    NavigationInput {
        message,
        key,
        capture_pending: false,
        has_shortcut_field: true,
        ctrl: false,
        shift: false,
        alt: false,
        ctrl_state: false,
        shift_state: false,
        action: ShortcutAction::Find,
        draft: shortcuts(),
        has_tabs: true,
        current_tab: 2,
        focus_in_dialog: false,
        focus_dropped: false,
        focus_on_insert_tag: false,
        focus_on_insert_pause: false,
    }
}

fn speech() -> SpeechSettings {
    SpeechSettings {
        tts_engine: TtsEngine::Edge,
        tts_voice: "it-IT-ElsaNeural".to_string(),
        tts_rate: 0,
        tts_pitch: 0,
        tts_volume: 100,
        use_dialogue_voice: false,
        dialogue_voice: String::new(),
        dialogue_use_secondary_voice: false,
        dialogue_secondary_voice: String::new(),
        dialogue_secondary_voice_rate: 0,
        dialogue_secondary_voice_pitch: 0,
        dialogue_secondary_voice_volume: 100,
        dialogue_secondary_tts_engine: TtsEngine::Edge,
        dialogue_voice_rate: 0,
        dialogue_voice_pitch: 0,
        dialogue_voice_volume: 100,
        dialogue_tts_engine: TtsEngine::Edge,
        dialogue_opening_quote: "\"".to_string(),
        dialogue_closing_quote: "\"".to_string(),
        dialogue_allow_multiline: false,
    }
}

fn watched() -> WatchedSettings {
    WatchedSettings {
        language: Language::Italian,
        modified_marker_position: ModifiedMarkerPosition::End,
        word_wrap: true,
        indentation_mode: IndentationMode::Default,
        indent_tab_width: 4,
        indent_space_width: 4,
        context_menu_open_with: true,
        group_tools_menu_by_category: false,
        use_legacy_name: false,
        spellcheck_enabled: true,
        spellcheck_language_mode: SpellcheckLanguageMode::FollowEditorLanguage,
        spellcheck_fixed_language: "en-US".to_string(),
        shortcuts: shortcuts(),
        speech: speech(),
    }
}

#[test]
fn navigation_captures_keys_while_waiting() {
    let mut i = input(KeyMessage::SysKeyDown, 0x1B);
    i.capture_pending = true;
    assert!(matches!(handle_navigation(&i), NavigationAction::Capture { outcome: ShortcutCaptureOutcome::Cancelled }));
    i.has_shortcut_field = false;
    assert!(matches!(handle_navigation(&i), NavigationAction::Unhandled));
    let mut j = input(KeyMessage::KeyDown, 0x58);
    j.capture_pending = true;
    j.ctrl = true;
    match handle_navigation(&j) {
        NavigationAction::Capture { outcome: ShortcutCaptureOutcome::Assigned { settings } } => {
            assert_eq!(settings.find, ShortcutBinding { ctrl: true, shift: false, alt: false, key: 0x58 });
        }
        _ => panic!("Ctrl+X is free"),
    }
}

#[test]
fn navigation_changes_tabs_and_confirms() {
    let mut i = input(KeyMessage::KeyDown, 0x09);
    i.ctrl_state = true;
    i.shift_state = true;
    assert!(matches!(handle_navigation(&i), NavigationAction::SelectTab { tab: 1 }));
    i.has_tabs = false;
    assert!(matches!(handle_navigation(&i), NavigationAction::PassOn));
    let mut r = input(KeyMessage::KeyDown, 0x0D);
    r.focus_in_dialog = true;
    r.focus_on_insert_pause = true;
    assert!(matches!(handle_navigation(&r), NavigationAction::Confirm { insert_tag: false, insert_pause: true }));
    r.focus_dropped = true;
    assert!(matches!(handle_navigation(&r), NavigationAction::PassOn));
    let other = input(KeyMessage::Other, 0x0D);
    assert!(matches!(handle_navigation(&other), NavigationAction::PassOn));
}

#[test]
fn keys_on_the_dialog_window() {
    assert_eq!(dialog_key_action(0x09, true, false, true, 6, false), DialogKeyAction::SelectTab { tab: 0 });
    assert_eq!(dialog_key_action(0x09, false, false, true, 6, false), DialogKeyAction::Default);
    assert_eq!(dialog_key_action(0x0D, false, false, true, 0, true), DialogKeyAction::Apply);
    assert_eq!(dialog_key_action(0x0D, false, false, true, 0, false), DialogKeyAction::Default);
    assert_eq!(dialog_key_action(0x1B, false, false, true, 0, false), DialogKeyAction::Close);
}

#[test]
fn commands_of_the_controls() {
    assert_eq!(options_command(6005, 0), OptionsCommand::Apply);
    assert_eq!(options_command(2, 0), OptionsCommand::Close);
    assert_eq!(options_command(6012, 1), OptionsCommand::EngineChanged);
    assert_eq!(options_command(6012, 7), OptionsCommand::Ignore);
    assert_eq!(options_command(6096, 0), OptionsCommand::DialogueVoiceFilterChanged);
    assert_eq!(options_command(6088, 0), OptionsCommand::DialogueVoiceToggled);
    assert_eq!(options_command(6094, 1), OptionsCommand::DialogueVoiceLanguageChanged);
    assert_eq!(options_command(6073, 0), OptionsCommand::ResetShortcut);
    assert_eq!(options_command(9999, 0), OptionsCommand::Default);
}

#[test]
fn tab_changes() {
    let c = tab_change(9, false);
    assert_eq!(c.tab, 6);
    assert!(c.focus_first);
    assert_eq!(c.follow_up, TabFollowUp::ShortcutText);
    assert_eq!(tab_change(-2, true).follow_up, TabFollowUp::HideAudioSplitControls);
    assert!(!tab_change(1, true).focus_first);
    assert_eq!(tab_change(1, true).follow_up, TabFollowUp::VoiceControls);
    assert_eq!(tab_change(3, true).follow_up, TabFollowUp::AudioControls);
    assert_eq!(tab_change(2, true).follow_up, TabFollowUp::IndentationControls);
    assert!(group_visible(ControlGroup::RaiLuceCode, 4, Language::Italian));
    assert!(!group_visible(ControlGroup::RaiLuceCode, 4, Language::English));
    assert!(group_visible(ControlGroup::RssPodcast, 4, Language::English));
    assert!(!group_visible(ControlGroup::General, 1, Language::Italian));
}

#[test]
fn dialogue_controls() {
    let off = dialogue_control_state(DialogueControlRole::Primary, true, false, true, 0, 0, false, false, false);
    assert_eq!(off, ControlState { visible: false, enabled: false });
    let toggle = dialogue_control_state(DialogueControlRole::Toggle, true, false, false, 0, 0, false, false, false);
    assert_eq!(toggle, ControlState { visible: true, enabled: true });
    let second = dialogue_control_state(DialogueControlRole::SecondaryToggle, true, false, false, 0, 0, false, false, false);
    assert_eq!(second, ControlState { visible: false, enabled: true });
    let lang = dialogue_control_state(DialogueControlRole::PrimaryLanguage, true, true, false, -1, 0, false, false, false);
    assert!(lang.visible);
    let lang_sapi = dialogue_control_state(DialogueControlRole::PrimaryLanguage, true, true, false, 1, 0, false, false, false);
    assert!(!lang_sapi.visible);
    let field = dialogue_control_state(DialogueControlRole::SecondaryTuningField, true, true, true, 0, 2, false, false, true);
    assert_eq!(field, ControlState { visible: true, enabled: true });
    let list = dialogue_control_state(DialogueControlRole::SecondaryTuningList, true, true, true, 0, 2, false, false, true);
    assert!(!list.visible);
    let hidden = dialogue_control_state(DialogueControlRole::Toggle, false, true, true, 0, 0, false, false, false);
    assert_eq!(hidden, ControlState { visible: false, enabled: false });
}

#[test]
fn section_visibility() {
    assert_eq!(split_controls(1), SplitControls { text: false, time: true, parts: false });
    assert_eq!(split_controls(3), SplitControls { text: false, time: false, parts: true });
    assert_eq!(split_controls(-1), SplitControls { text: false, time: false, parts: false });
    assert!(subtitle_ducking_visible(3));
    assert!(!subtitle_ducking_visible(2));
    assert_eq!(indentation_width_lists(1), (true, false));
    assert_eq!(indentation_width_lists(0), (false, false));
}

#[test]
fn refreshes_after_saving() {
    let before = watched();
    let same = apply_effects(&before, &watched(), true);
    assert!(!same.reset_spellcheck && !same.rebuild_menus && !same.restart_reading && !same.update_window_title);
    let mut after = watched();
    after.language = Language::English;
    after.speech.tts_voice = "en-US-AvaNeural".to_string();
    after.spellcheck_fixed_language = "en-GB".to_string();
    let e = apply_effects(&before, &after, true);
    assert!(e.rebuild_menus);
    assert!(e.sync_context_menu);
    assert!(e.restart_reading);
    assert!(e.reset_spellcheck);
    assert!(!e.apply_word_wrap);
    assert!(!apply_effects(&before, &after, false).restart_reading);
    let mut legacy = watched();
    legacy.use_legacy_name = true;
    let l = apply_effects(&before, &legacy, false);
    assert!(l.sync_start_menu && l.update_window_title && !l.rebuild_menus);
    assert!(speech_unchanged(&speech(), &speech()));
}

#[test]
fn proxy_is_kept_only_when_it_works() {
    let p = proxy_settings_from_fields(" http://proxy ", " 8080 ", " user ", " pw ");
    assert_eq!((p.url.as_str(), p.port.as_str(), p.username.as_str(), p.password.as_str()), ("http://proxy", "8080", "user", "pw"));
    assert!(proxy_check_needed(&p));
    let kept = proxy_settings_after_check(p.clone(), true);
    assert_eq!(kept.url, "http://proxy");
    let cleared = proxy_settings_after_check(p, false);
    assert!(cleared.url.is_empty() && cleared.port.is_empty() && cleared.username.is_empty() && cleared.password.is_empty());
    let none = proxy_settings_from_fields("", " ", "u", "p");
    assert!(!proxy_check_needed(&none));
    assert_eq!(proxy_settings_after_check(none, false).username, "u");
}

#[test]
fn save_folders_by_kind() {
    assert_eq!(save_folder_kinds(Language::Italian), vec![0, 5, 1, 2, 3, 4]);
    assert_eq!(save_folder_kinds(Language::English), vec![0, 5, 1, 2, 3]);
    let kinds = save_folder_kinds(Language::English);
    assert_eq!(selected_save_folder_kind(1, &kinds), DEFAULT_SAVE_FOLDER_AUDIO_DESCRIPTION);
    assert_eq!(selected_save_folder_kind(-1, &kinds), DEFAULT_SAVE_FOLDER_AUDIOBOOK);
    assert_eq!(selected_save_folder_kind(9, &kinds), DEFAULT_SAVE_FOLDER_AUDIOBOOK);
    let mut folders = SaveFolders {
        audiobook: "A".into(),
        audio_description: "AD".into(),
        media: "M".into(),
        documents: "D".into(),
        radio: "R".into(),
        tv: "T".into(),
    };
    let shown = switch_save_folder_kind(&mut folders, DEFAULT_SAVE_FOLDER_AUDIOBOOK, "  C:\\Books  ", DEFAULT_SAVE_FOLDER_MEDIA);
    assert_eq!(shown, "M");
    assert_eq!(folders.audiobook, "C:\\Books");
    assert_eq!(folders.get(DEFAULT_SAVE_FOLDER_TV), "T");
    assert_eq!(folders.get(77), "C:\\Books");
    folders.set(DEFAULT_SAVE_FOLDER_TV, " x ".into());
    let trimmed = trimmed_save_folders(&folders);
    assert_eq!(trimmed.tv, "x");
    assert_eq!(trimmed.media, "M");
}

#[test]
fn folder_kind_switch_back_restores_text() {
    let mut folders = SaveFolders {
        audiobook: "A".into(),
        audio_description: "D".into(),
        media: "M".into(),
        documents: "O".into(),
        radio: "R".into(),
        tv: "T".into(),
    };
    let shown = switch_save_folder_kind(&mut folders, DEFAULT_SAVE_FOLDER_TV, " C:\\Tv ", DEFAULT_SAVE_FOLDER_AUDIO_DESCRIPTION);
    assert_eq!(shown, "D");
    let back = switch_save_folder_kind(&mut folders, DEFAULT_SAVE_FOLDER_AUDIO_DESCRIPTION, "E:\\Desc", DEFAULT_SAVE_FOLDER_TV);
    assert_eq!(back, "C:\\Tv");
    assert_eq!(folders.audio_description, "E:\\Desc");
}

#[test]
fn tags_and_pauses() {
    assert_eq!(pause_menu_choice(6142), PauseChoice::Milliseconds { ms: 500 });
    assert_eq!(pause_menu_choice(6145), PauseChoice::Custom);
    assert_eq!(pause_menu_choice(0), PauseChoice::Dismissed);
    assert_eq!(custom_pause_milliseconds(" 1500 ", 100, 10000), Some(1500));
    assert_eq!(custom_pause_milliseconds("50", 100, 10000), None);
    assert_eq!(custom_pause_milliseconds("abc", 100, 10000), None);
    let voices = vec![VoiceInfo { short_name: "v".into(), locale: "it-IT".into(), is_multilingual: false }];
    assert_eq!(selected_voice_name(0, 0, &voices).as_deref(), Some("v"));
    assert_eq!(selected_voice_name(-1, 0, &voices), None);
    assert_eq!(selected_voice_name(0, 3, &voices), None);
    let limits = tts_tuning_limits_for_engine(TtsEngine::Edge, 0);
    assert_eq!(tag_rate_and_volume(true, "130", "300", &[], 0, &[], 0, limits), (30, 200));
    assert_eq!(tag_rate_and_volume(true, "", "", &[], 0, &[], 0, limits), (0, 100));
    assert_eq!(tag_rate_and_volume(false, "", "", &[10, 500], 1, &[50], 0, limits), (100, 50));
    assert_eq!(tag_rate_and_volume(false, "", "", &[10], -1, &[50], -1, limits), (0, 25));
}
