use sonarpad_options::i18n::Catalog;
use sonarpad_options::tuning::{tuning_presets, TuningList};
use sonarpad_options::layout::{
    adjusted_control_height, clamp_scroll_offset, dialog_button_rects, is_combo_box, layout_button,
    layout_button_compact, layout_button_compact_height, layout_checkbox, layout_label_control,
    mouse_wheel_scroll_offset, options_viewport_height, tab_array_index, vscroll_offset, wheel_delta_from_wparam,
    ControlRect,
};
use sonarpad_options::model::{Language, TtsEngine, TtsTuning};
use sonarpad_options::tuning::{
    clamp_i32, clamp_tts_tuning_for_engine, combo_value, main_tts_tuning_from_inputs, read_tts_edit_value,
    read_tts_edit_value_with_clamp, read_tts_pitch_edit_value_with_clamp, read_tts_tuning_edit_value,
    read_tts_tuning_edit_value_with_clamp, select_combo_nearest_value, select_combo_value,
    tts_pitch_ui_value, tts_tuning_limits_for_engine, tts_ui_value_from_internal, tuning_field_texts, TuningDrafts,
};

#[test]
fn tab_indices_and_scroll_clamping() {
    assert_eq!(tab_array_index(-3), 0);
    assert_eq!(tab_array_index(4), 4);
    assert_eq!(tab_array_index(12), 6);
    assert_eq!(clamp_scroll_offset(-5, 900, 600), 0);
    assert_eq!(clamp_scroll_offset(500, 900, 600), 300);
    assert_eq!(clamp_scroll_offset(120, 900, 600), 120);
    assert_eq!(clamp_scroll_offset(50, 400, 600), 0);
    let once = clamp_scroll_offset(1000, 900, 600);
    assert_eq!(clamp_scroll_offset(once, 900, 600), once);
}

#[test]
fn dialog_geometry() {
    assert_eq!(options_viewport_height(800), 654);
    assert_eq!(options_viewport_height(50), 0);
    let (ok, cancel) = dialog_button_rects(980, 800);
    assert_eq!(ok, ControlRect { x: 756, y: 752, width: 100, height: 30 });
    assert_eq!(cancel, ControlRect { x: 864, y: 752, width: 100, height: 30 });
    assert_eq!(adjusted_control_height(30, true), 180);
    assert_eq!(adjusted_control_height(30, false), 30);
    assert_eq!(adjusted_control_height(26, true), 26);
    assert!(is_combo_box("combobox"));
    assert!(!is_combo_box("Edit"));
    let (label, control, next) = layout_label_control(100, 30);
    assert_eq!(label, ControlRect { x: 24, y: 100, width: 285, height: 20 });
    assert_eq!(control, ControlRect { x: 327, y: 98, width: 430, height: 30 });
    assert_eq!(next, 136);
    assert_eq!(layout_checkbox(10), (ControlRect { x: 327, y: 10, width: 430, height: 24 }, 46));
    assert_eq!(layout_button(10).1, 46);
    assert_eq!(layout_button_compact(10).1, 40);
    assert_eq!(layout_button_compact_height(10, 60).0.height, 60);
}

#[test]
fn wheel_and_scroll_bar() {
    assert_eq!(wheel_delta_from_wparam(120 << 16), 120);
    assert_eq!(wheel_delta_from_wparam(0xFF88_0000), -120);
    assert_eq!(mouse_wheel_scroll_offset(100, 120, 1000, 600), Some(68));
    assert_eq!(mouse_wheel_scroll_offset(100, -360, 1000, 600), Some(196));
    assert_eq!(mouse_wheel_scroll_offset(10, 60, 1000, 600), Some(0));
    assert_eq!(mouse_wheel_scroll_offset(10, 0, 1000, 600), None);
    assert_eq!(vscroll_offset(100, 0, 0, 1000, 600), 68);
    assert_eq!(vscroll_offset(100, 1, 0, 1000, 600), 132);
    assert_eq!(vscroll_offset(100, 3, 0, 1000, 600), 400);
    assert_eq!(vscroll_offset(100, 2, 0, 1000, 600), 0);
    assert_eq!(vscroll_offset(100, 5, 250, 1000, 600), 250);
    assert_eq!(vscroll_offset(100, 7, 0, 1000, 600), 400);
    assert_eq!(vscroll_offset(100, 6, 0, 1000, 600), 0);
    assert_eq!(vscroll_offset(100, 8, 0, 1000, 600), 100);
    assert_eq!(vscroll_offset(100, 1, 0, 500, 600), 0);
    assert_eq!(vscroll_offset(-50, 1, 0, 1000, 600), 0);
    assert_eq!(vscroll_offset(900, 8, 0, 1000, 600), 400);
    assert_eq!(vscroll_offset(100, 1, 0, -20, 600), 0);
    assert_eq!(mouse_wheel_scroll_offset(100, -120, -5, 0), Some(0));
    assert_eq!(tts_pitch_ui_value(TtsEngine::Google, i32::MAX, 55), 55);
}

#[test]
fn tuning_limits_and_clamping() {
    let edge = tts_tuning_limits_for_engine(TtsEngine::Edge, 0);
    assert_eq!((edge.volume_min, edge.volume_max), (25, 200));
    let google = tts_tuning_limits_for_engine(TtsEngine::Google, -20);
    assert_eq!((google.pitch_min, google.pitch_max), (-20, 80));
    let clamped = clamp_tts_tuning_for_engine(TtsEngine::Sapi5, TtsTuning { rate: 300, pitch: -40, volume: 150 }, 0, 0);
    assert_eq!(clamped, TtsTuning { rate: 100, pitch: -12, volume: 100 });
    assert_eq!(clamp_tts_tuning_for_engine(TtsEngine::Sapi5, clamped, 0, 0), clamped);
    let g = clamp_tts_tuning_for_engine(TtsEngine::Google, TtsTuning { rate: 5, pitch: 999, volume: -1 }, 0, 42);
    assert_eq!(g, TtsTuning { rate: 5, pitch: 42, volume: 0 });
    assert_eq!(clamp_i32(7, 0, 5), 5);
}

#[test]
fn user_values_and_fields() {
    assert_eq!(tts_ui_value_from_internal(-30), 70);
    assert_eq!(tts_pitch_ui_value(TtsEngine::Edge, 4, 77), 104);
    assert_eq!(tts_pitch_ui_value(TtsEngine::Google, 4, 77), 77);
    assert_eq!(read_tts_edit_value(" 250 ", 100, 25, 200), 200);
    assert_eq!(read_tts_edit_value("loud", 100, 25, 200), 100);
    assert_eq!(read_tts_edit_value_with_clamp("10", 100, 25, 200), (25, Some(25)));
    assert_eq!(read_tts_edit_value_with_clamp("50", 100, 25, 200), (50, None));
    assert_eq!(read_tts_tuning_edit_value("150", 0, -100, 100), 50);
    assert_eq!(read_tts_tuning_edit_value("", 30, -100, 100), 30);
    assert_eq!(read_tts_tuning_edit_value_with_clamp("250", 0, -100, 100), (100, Some(200)));
    assert_eq!(read_tts_pitch_edit_value_with_clamp("105", TtsEngine::Edge, 0, 50).0, 5);
    assert_eq!(read_tts_pitch_edit_value_with_clamp("130", TtsEngine::Google, 0, 50), (100, Some(100)));
    let (rate, pitch, volume) = tuning_field_texts(TtsEngine::Edge, TtsTuning { rate: -25, pitch: 3, volume: 180 }, 0);
    assert_eq!((rate.as_str(), pitch.as_str(), volume.as_str()), ("75", "103", "180"));
    assert_eq!(read_tts_tuning_edit_value(&rate, 0, -100, 100), -25);
    assert_eq!(read_tts_tuning_edit_value(&pitch, 0, -12, 12), 3);
    assert_eq!(read_tts_edit_value(&volume, 100, 25, 200), 180);
}

#[test]
fn value_lists() {
    let items = [-100, -50, 0, 50, 100];
    assert_eq!(select_combo_value(&items, 50), Some(3));
    assert_eq!(select_combo_value(&items, 7), None);
    assert_eq!(select_combo_nearest_value(&items, 20), Some(2));
    assert_eq!(select_combo_nearest_value(&items, 25), Some(2));
    assert_eq!(select_combo_nearest_value(&items, 90), Some(4));
    assert_eq!(select_combo_nearest_value(&[], 3), None);
    assert_eq!(combo_value(&items, 1), -50);
    assert_eq!(combo_value(&items, -1), 0);
    assert_eq!(combo_value(&items, 9), -1);
}

#[test]
fn tuning_drafts_per_engine() {
    let t = |r| TtsTuning { rate: r, pitch: 0, volume: 100 };
    let mut drafts = TuningDrafts { edge: t(1), google: t(2), sapi5: t(3), sapi4: t(4) };
    drafts.set(TtsEngine::Google, t(20));
    assert_eq!(drafts.get(TtsEngine::Google), t(20));
    assert_eq!(drafts.get(TtsEngine::Edge), t(1));
    assert_eq!(drafts.get(TtsEngine::Sapi4), t(4));
}

#[test]
fn main_tuning_reading() {
    let limits = tts_tuning_limits_for_engine(TtsEngine::Edge, 0);
    let (manual, adjusted) = main_tts_tuning_from_inputs(limits, true, "300", "20", (2, None), 0, 0);
    assert_eq!(manual, TtsTuning { rate: 100, pitch: 2, volume: 25 });
    assert_eq!(adjusted, Some(200));
    let (manual, adjusted) = main_tts_tuning_from_inputs(limits, true, "120", "20", (2, Some(9)), 0, 0);
    assert_eq!(manual.rate, 20);
    assert_eq!(adjusted, Some(9));
    let (listed, adjusted) = main_tts_tuning_from_inputs(limits, false, "x", "y", (1, Some(5)), 500, 10);
    assert_eq!(listed, TtsTuning { rate: 100, pitch: 1, volume: 25 });
    assert_eq!(adjusted, None);
}

#[test]
fn switching_engine_away_and_back_restores_tuning() {
    let t = |r| TtsTuning { rate: r, pitch: 0, volume: 100 };
    let mut drafts = TuningDrafts { edge: t(1), google: t(2), sapi5: t(3), sapi4: t(4) };
    let shown = drafts.switch_engine(TtsEngine::Edge, t(50), TtsEngine::Sapi5);
    assert_eq!(shown, t(3));
    assert_eq!(drafts.edge, t(50));
    let back = drafts.switch_engine(TtsEngine::Sapi5, t(-7), TtsEngine::Edge);
    assert_eq!(back, t(50));
    assert_eq!(drafts.sapi5, t(-7));
    assert_eq!(drafts.google, t(2));
}

#[test]
fn switching_to_same_engine_shows_what_was_shown() {
    let t = |r| TtsTuning { rate: r, pitch: 0, volume: 100 };
    let mut drafts = TuningDrafts { edge: t(1), google: t(2), sapi5: t(3), sapi4: t(4) };
    assert_eq!(drafts.switch_engine(TtsEngine::Google, t(9), TtsEngine::Google), t(9));
}

#[test]
fn tuning_preset_lists() {
    let mut catalog = Catalog::new();
    catalog.add(Language::English, "tts_tuning.speed.normal", "Normal");
    let speed = tuning_presets(&catalog, Language::English, TuningList::Speed);
    assert_eq!(speed.len(), 11);
    assert_eq!(speed[0], ("tts_tuning.speed.extremely_slow".to_string(), -100));
    assert_eq!(speed[5], ("Normal".to_string(), 0));
    assert_eq!(speed[10].1, 100);
    let pitch = tuning_presets(&catalog, Language::English, TuningList::Pitch);
    let values: Vec<i32> = pitch.iter().map(|p| p.1).collect();
    assert_eq!(values, vec![-12, -10, -7, -5, -2, 0, 2, 5, 7, 9, 12]);
    let volume = tuning_presets(&catalog, Language::Italian, TuningList::Volume);
    assert_eq!(volume.len(), 12);
    assert_eq!(volume[11], ("tts_tuning.volume.maximum".to_string(), 200));
    assert_eq!(volume[5].0, "tts_tuning.volume.normal");
}

#[test]
fn pitch_field_correction() {
    assert_eq!(read_tts_pitch_edit_value_with_clamp("150", TtsEngine::Edge, 0, 50), (12, Some(112)));
    assert_eq!(read_tts_pitch_edit_value_with_clamp(" 105 ", TtsEngine::Sapi5, 0, 50), (5, None));
    assert_eq!(read_tts_pitch_edit_value_with_clamp("150", TtsEngine::Google, 0, 50), (100, Some(100)));
    assert_eq!(read_tts_pitch_edit_value_with_clamp("x", TtsEngine::Google, i32::MAX, 50), (50, None));
}

#[test]
fn padded_fields_read_back() {
    let limits = tts_tuning_limits_for_engine(TtsEngine::Edge, 0);
    assert_eq!(read_tts_tuning_edit_value(" \t90\n", 0, limits.rate_min, limits.rate_max), -10);
}
