use sonarpad_options::i18n::Catalog;
use sonarpad_options::model::{Language, ShortcutBinding, ShortcutSettings};
use sonarpad_options::shortcuts::{
    assign_shortcut_binding, capture_shortcut_key, find_fixed_shortcut_conflict_label, find_shortcut_conflict,
    fixed_shortcut_bindings, fixed_shortcut_conflict_index, fixed_shortcut_labels, is_modifier_vk, modifier_down,
    modifier_down_any, next_options_tab, plain_shortcut_action_label, reset_shortcut_binding, selected_shortcut_action,
    set_shortcut_binding_for_action, shortcut_action_at, shortcut_action_i18n_key, shortcut_action_label,
    shortcut_binding_for_action, shortcut_tab_title, shortcuts_change_label, shortcuts_label_action,
    shortcuts_label_value, shortcuts_reset_all_label, shortcuts_reset_label, MenuLabels, ShortcutAction,
    ShortcutCaptureOutcome,
};

fn key(k: u16) -> ShortcutBinding {
    ShortcutBinding { ctrl: false, shift: true, alt: true, key: k }
}

fn settings() -> ShortcutSettings {
    ShortcutSettings {
        read_pause_resume: key(0x70),
        read_start: key(0x71),
        read_previous_sentence: key(0x30),
        read_next_sentence: key(0x31),
        read_stop: key(0x32),
        execute_file: key(0x33),
        audiobook: key(0x34),
        batch_audiobooks: key(0x35),
        record_podcast: key(0x36),
        dictation: key(0x37),
        convert_audio: key(0x38),
        open_rss: key(0x39),
        open_podcasts: key(0x74),
        open_paths_navigation: key(0x75),
        open_radio: key(0x76),
        open_calendar: key(0x77),
        open_weather: key(0x78),
        open_cinema: key(0x79),
        open_dictionary: key(0x7A),
        open_options: key(0x7B),
        open_terminal: key(0x41),
        import_wikipedia: key(0x44),
        import_youtube: key(0x45),
        find: key(0x47),
        quote_lines: key(0x4A),
        unquote_lines: key(0x4C),
        media_prev: key(0x51),
        media_next: key(0x52),
        chapter_prev: key(0x54),
        chapter_next: key(0x55),
    }
}

fn menu() -> MenuLabels {
    let s = |t: &str| t.to_string();
    MenuLabels {
        file_new: s("&New\tCtrl+N"),
        file_open: s("&Open...\tCtrl+O"),
        file_save: s("&Save\tCtrl+S"),
        file_save_all: s("Save a&ll\tCtrl+Shift+S"),
        file_print: s("&Print\tCtrl+P"),
        file_close: s("&Close\tCtrl+W"),
        window_close_others: s("Close others"),
        edit_find_in_files: s("Find in files"),
        edit_strip_markdown: s("Strip markdown"),
        menu_create_audio_description: s("Audio description"),
        edit_hard_line_break: s("Hard line break"),
        edit_order_items: s("Order items"),
        edit_keep_unique_items: s("Keep unique"),
        edit_reverse_items: s("Reverse"),
        edit_normalize_whitespace: s("Normalize"),
        edit_find_next: s("Find next"),
        edit_find_previous: s("Find previous"),
        edit_replace: s("Replace"),
        edit_goto_line: s("Go to line"),
        edit_select_all: s("Select all"),
        edit_indent: s("Indent"),
        edit_outdent: s("Outdent"),
        edit_join_lines: s("Join lines"),
        edit_join_wrapped_lines: s("Join wrapped"),
        edit_text_stats: s("Stats"),
        edit_remove_duplicate_lines: s("Remove duplicates"),
        edit_remove_duplicate_consecutive_lines: s("Remove consecutive"),
        edit_clean_eol_hyphens: s("Clean hyphens"),
        menu_dictionary_lookup: s("Dictionary"),
        insert_goto_next_bookmark: s("Next bookmark"),
        insert_goto_prev_bookmark: s("Previous bookmark"),
        manage_bookmarks: s("Bookmarks"),
        insert_clear_bookmarks: s("Clear bookmarks"),
        insert_bookmark: s("Insert bookmark"),
        menu_stream_audio: s("Stream"),
        menu_rai_audiodescrizioni: String::new(),
        menu_bdciechi: s("BD &Ciechi Alt+Shift+B"),
        menu_gutenberg: s("Gutenberg"),
        menu_internet_archive: s("Archive"),
        menu_librivox: s("LibriVox"),
    }
}

#[test]
fn actions_are_listed_in_order() {
    assert_eq!(shortcut_action_at(0), Some(ShortcutAction::ReadPauseResume));
    assert_eq!(shortcut_action_at(29), Some(ShortcutAction::ChapterNext));
    assert_eq!(shortcut_action_at(30), None);
    assert_eq!(selected_shortcut_action(-1), ShortcutAction::ReadPauseResume);
    assert_eq!(selected_shortcut_action(23), ShortcutAction::Find);
    assert_eq!(selected_shortcut_action(99), ShortcutAction::ReadPauseResume);
    assert_eq!(shortcut_action_i18n_key(ShortcutAction::ReadStart), "options.shortcuts.action.read_start");
    assert_eq!(shortcut_action_i18n_key(ShortcutAction::ReadNextSentence), "file.read_next_sentence");
}

#[test]
fn bindings_read_back_after_being_set() {
    let mut s = settings();
    let b = ShortcutBinding { ctrl: true, shift: false, alt: true, key: 0x58 };
    set_shortcut_binding_for_action(&mut s, ShortcutAction::MediaNext, b);
    assert_eq!(shortcut_binding_for_action(&s, ShortcutAction::MediaNext), b);
    assert_eq!(shortcut_binding_for_action(&s, ShortcutAction::MediaPrev), key(0x51));
    let same = shortcut_binding_for_action(&s, ShortcutAction::Find);
    let before = s;
    set_shortcut_binding_for_action(&mut s, ShortcutAction::Find, same);
    assert_eq!(s, before);
}

#[test]
fn conflicts_with_other_actions_and_menus() {
    let s = settings();
    assert_eq!(find_shortcut_conflict(&s, ShortcutAction::Find, key(0x71)), Some(ShortcutAction::ReadStart));
    assert_eq!(find_shortcut_conflict(&s, ShortcutAction::ReadStart, key(0x71)), None);
    let ctrl_n = ShortcutBinding { ctrl: true, shift: false, alt: false, key: 0x4E };
    assert_eq!(fixed_shortcut_conflict_index(ctrl_n), Some(0));
    assert_eq!(fixed_shortcut_bindings().len(), 46);
    let catalog = Catalog::new();
    assert_eq!(fixed_shortcut_labels(&menu(), &catalog, Language::English).len(), 46);
    assert_eq!(find_fixed_shortcut_conflict_label(&menu(), &catalog, Language::English, ctrl_n).as_deref(), Some("New"));
    assert_eq!(find_fixed_shortcut_conflict_label(&menu(), &catalog, Language::English, key(0x71)), None);
}

#[test]
fn menu_labels_become_plain_text() {
    assert_eq!(plain_shortcut_action_label("&Open...\tCtrl+O"), "Open...");
    assert_eq!(plain_shortcut_action_label("Rock && roll"), "Rock & roll");
    assert_eq!(plain_shortcut_action_label("BD &Ciechi Alt+Shift+B"), "BD Ciechi");
    assert_eq!(plain_shortcut_action_label("Plain"), "Plain");
}

#[test]
fn action_labels_are_translated() {
    let mut catalog = Catalog::new();
    catalog.add(Language::Italian, "options.shortcuts.action.read_start", "Avvia lettura");
    catalog.add(Language::Italian, "playback.chapter_prev", "Capitolo &precedente\tAlt+Shift+Left");
    catalog.add(Language::Italian, "options.shortcuts.tab", "Scorciatoie");
    assert_eq!(shortcut_action_label(&catalog, Language::Italian, ShortcutAction::ReadStart), "Avvia lettura");
    assert_eq!(shortcut_action_label(&catalog, Language::Italian, ShortcutAction::ChapterPrev), "Capitolo precedente");
    assert_eq!(
        shortcut_action_label(&catalog, Language::English, ShortcutAction::ReadStart),
        "options.shortcuts.action.read_start"
    );
    assert!(!shortcut_tab_title(&catalog, Language::English).is_empty());
    assert!(!shortcuts_label_action(&catalog, Language::English).is_empty());
    assert!(!shortcuts_label_value(&catalog, Language::English).is_empty());
    assert!(!shortcuts_change_label(&catalog, Language::English).is_empty());
    assert!(!shortcuts_reset_label(&catalog, Language::English).is_empty());
    assert!(!shortcuts_reset_all_label(&catalog, Language::English).is_empty());
}

#[test]
fn modifier_keys_and_states() {
    assert!(is_modifier_vk(0x10));
    assert!(is_modifier_vk(0xA5));
    assert!(!is_modifier_vk(0xA6));
    assert!(modifier_down(-128, 0));
    assert!(modifier_down(0, i16::MIN));
    assert!(!modifier_down(1, 0x7FFF));
    assert!(modifier_down_any(&[(0, 0), (0, -1)]));
    assert!(!modifier_down_any(&[(0, 0), (1, 1)]));
    assert!(!modifier_down_any(&[]));
}

#[test]
fn capturing_a_key() {
    let s = settings();
    assert!(matches!(capture_shortcut_key(&s, ShortcutAction::Find, 0x1B, false, false, false), ShortcutCaptureOutcome::Cancelled));
    assert!(matches!(
        capture_shortcut_key(&s, ShortcutAction::Find, 0x09, false, true, false),
        ShortcutCaptureOutcome::CancelledMoveFocus { backwards: true }
    ));
    assert!(matches!(capture_shortcut_key(&s, ShortcutAction::Find, 0x0D, true, false, false), ShortcutCaptureOutcome::Ignored));
    assert!(matches!(capture_shortcut_key(&s, ShortcutAction::Find, 0x11, true, false, false), ShortcutCaptureOutcome::Ignored));
    match capture_shortcut_key(&s, ShortcutAction::Find, 0x41, false, true, true) {
        ShortcutCaptureOutcome::TakenByAction { action, binding } => {
            assert_eq!(action, ShortcutAction::OpenTerminal);
            assert_eq!(binding, key(0x41));
        }
        _ => panic!("the binding belongs to another action"),
    }
    // Key codes 0x61 to 0x7A count as lower-case letters: 0x71 is read as 0x51.
    match capture_shortcut_key(&s, ShortcutAction::Find, 0x71, false, true, true) {
        ShortcutCaptureOutcome::TakenByAction { action, binding } => {
            assert_eq!(action, ShortcutAction::MediaPrev);
            assert_eq!(binding, key(0x51));
        }
        _ => panic!("the binding belongs to another action"),
    }
    match capture_shortcut_key(&s, ShortcutAction::Find, 0x6E, true, false, false) {
        ShortcutCaptureOutcome::TakenByMenu { index, binding } => {
            assert_eq!(index, 0);
            assert_eq!(binding.key, 0x4E);
        }
        _ => panic!("Ctrl+N belongs to the menus"),
    }
    match capture_shortcut_key(&s, ShortcutAction::Find, 0x6B, true, true, true) {
        ShortcutCaptureOutcome::Assigned { settings: after } => {
            assert_eq!(
                shortcut_binding_for_action(&after, ShortcutAction::Find),
                ShortcutBinding { ctrl: true, shift: true, alt: true, key: 0x4B }
            );
            assert_eq!(shortcut_binding_for_action(&after, ShortcutAction::ReadStart), key(0x71));
        }
        _ => panic!("the binding is free"),
    }
}

#[test]
fn resetting_to_the_default_binding() {
    let draft = settings();
    let mut defaults = settings();
    set_shortcut_binding_for_action(&mut defaults, ShortcutAction::Find, ShortcutBinding { ctrl: true, shift: false, alt: false, key: 0x46 });
    match reset_shortcut_binding(&draft, ShortcutAction::Find, &defaults) {
        ShortcutCaptureOutcome::Assigned { settings: after } => {
            assert_eq!(shortcut_binding_for_action(&after, ShortcutAction::Find).key, 0x46);
        }
        _ => panic!("Ctrl+F is free"),
    }
    let taken = key(0x70);
    assert!(matches!(
        assign_shortcut_binding(&draft, ShortcutAction::Find, taken),
        ShortcutCaptureOutcome::TakenByAction { action: ShortcutAction::ReadPauseResume, .. }
    ));
}

#[test]
fn ctrl_tab_wraps_around_the_tabs() {
    assert_eq!(next_options_tab(0, false), 1);
    assert_eq!(next_options_tab(6, false), 0);
    assert_eq!(next_options_tab(0, true), 6);
    assert_eq!(next_options_tab(-1, false), 0);
    assert_eq!(next_options_tab(i32::MIN, true), 6);
    assert_eq!(next_options_tab(i32::MAX, false), 0);
}
