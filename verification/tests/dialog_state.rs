use sonarpad_options::dialog_state::OptionsState;
use sonarpad_options::model::{Language, ShortcutBinding, ShortcutSettings};
use sonarpad_options::shortcuts::{
    capture_shortcut_key, set_shortcut_binding_for_action, ShortcutAction, ShortcutCaptureOutcome,
};
use sonarpad_options::visibility::split_controls;

fn bind(k: u16) -> ShortcutBinding {
    ShortcutBinding { ctrl: true, shift: false, alt: true, key: k }
}

fn draft() -> ShortcutSettings {
    ShortcutSettings {
        read_pause_resume: bind(0x70),
        read_start: bind(0x71),
        read_previous_sentence: bind(0x30),
        read_next_sentence: bind(0x31),
        read_stop: bind(0x32),
        execute_file: bind(0x33),
        audiobook: bind(0x34),
        batch_audiobooks: bind(0x35),
        record_podcast: bind(0x36),
        dictation: bind(0x37),
        convert_audio: bind(0x38),
        open_rss: bind(0x39),
        open_podcasts: bind(0x74),
        open_paths_navigation: bind(0x75),
        open_radio: bind(0x76),
        open_calendar: bind(0x77),
        open_weather: bind(0x78),
        open_cinema: bind(0x79),
        open_dictionary: bind(0x7A),
        open_options: bind(0x7B),
        open_terminal: bind(0x41),
        import_wikipedia: bind(0x44),
        import_youtube: bind(0x45),
        find: bind(0x47),
        quote_lines: bind(0x4A),
        unquote_lines: bind(0x4C),
        media_prev: bind(0x51),
        media_next: bind(0x52),
        chapter_prev: bind(0x54),
        chapter_next: bind(0x55),
    }
}

#[test]
fn new_state_starts_on_general_tab() {
    let s = OptionsState::new(draft());
    assert_eq!(s.active_tab, 0);
    assert!(!s.focus_initialized);
    assert_eq!(s.scroll_offsets, vec![0; 7]);
    assert_eq!(s.content_heights, vec![0; 7]);
    assert!(!s.shortcut_capture_pending);
}

#[test]
fn reset_all_restores_defaults_and_stops_waiting() {
    let defaults = draft();
    let mut edited = draft();
    set_shortcut_binding_for_action(&mut edited, ShortcutAction::Find, bind(0x48));
    let mut s = OptionsState::new(edited);
    s.begin_shortcut_capture();
    assert!(s.shortcut_capture_pending);
    s.reset_all_shortcuts(&defaults);
    assert_eq!(s.shortcut_draft, defaults);
    assert!(!s.shortcut_capture_pending);
}

#[test]
fn captured_key_becomes_draft_and_ends_waiting() {
    let mut s = OptionsState::new(draft());
    s.begin_shortcut_capture();
    let outcome = capture_shortcut_key(&s.shortcut_draft, ShortcutAction::Find, 0x48, true, false, true);
    s.apply_shortcut_outcome(&outcome);
    assert_eq!(s.shortcut_draft.find, bind(0x48));
    assert!(!s.shortcut_capture_pending);
}

#[test]
fn refused_key_keeps_waiting() {
    let mut s = OptionsState::new(draft());
    s.begin_shortcut_capture();
    let outcome = capture_shortcut_key(&s.shortcut_draft, ShortcutAction::Find, 0x41, true, false, true);
    assert!(matches!(outcome, ShortcutCaptureOutcome::TakenByAction { .. }));
    s.apply_shortcut_outcome(&outcome);
    assert_eq!(s.shortcut_draft, draft());
    assert!(s.shortcut_capture_pending);
    s.apply_shortcut_outcome(&ShortcutCaptureOutcome::Cancelled);
    assert!(!s.shortcut_capture_pending);
}

#[test]
fn selecting_a_tab_lays_it_out_once_focused() {
    let mut s = OptionsState::new(draft());
    let (change, rects) = s.select_tab(6, split_controls(0), Language::English, 100);
    assert!(change.focus_first);
    assert_eq!(change.tab, 6);
    assert_eq!(rects.len(), 7);
    assert_eq!(s.active_tab, 6);
    assert_eq!(s.content_heights[6], 202);
    assert!(s.focus_initialized);
    let (again, _) = s.select_tab(9, split_controls(0), Language::English, 100);
    assert!(!again.focus_first);
    assert_eq!(again.tab, 6);
}

#[test]
fn scrolling_the_tab_shown() {
    let mut s = OptionsState::new(draft());
    s.select_tab(6, split_controls(0), Language::English, 100);
    assert!(s.scroll_active_tab(7, 0, 100));
    assert_eq!(s.scroll_offsets[6], 102);
    assert!(!s.scroll_active_tab(7, 0, 100));
    assert!(s.scroll_active_tab(0, 0, 100));
    assert_eq!(s.scroll_offsets[6], 70);
    assert_eq!(s.scroll_offsets[0], 0);
    assert!(s.wheel_active_tab(-120, 100));
    assert_eq!(s.scroll_offsets[6], 102);
    assert!(!s.wheel_active_tab(0, 100));
    assert!(s.wheel_active_tab(240, 100));
    assert_eq!(s.scroll_offsets[6], 38);
    let rects = s.relayout_active_tab(split_controls(0), Language::English, 100);
    assert_eq!(rects[0].y, 58 - 38);
}

#[test]
fn scrolling_with_nothing_to_scroll_resets_offset() {
    let mut s = OptionsState::new(draft());
    s.scroll_offsets[0] = 40;
    s.content_heights[0] = -10;
    assert!(s.scroll_active_tab(1, 0, 300));
    assert_eq!(s.scroll_offsets[0], 0);
}
