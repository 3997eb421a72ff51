use sonarpad_options::i18n::Catalog;
use sonarpad_options::labels::options_labels;
use sonarpad_options::languages::{collect_voice_language_codes, voice_locale_language_code};
use sonarpad_options::model::{Language, TtsEngine, VoiceInfo};
use sonarpad_options::voices::{
    engine_position, listed_engine, refresh_voice_list, sapi4_voice_index, selected_tts_engine,
    selected_voice_short_name_from_combo_text, voice_combo_items, voice_combo_position, voice_language_selection,
    voice_list_from_response, voice_panel_view, voices_from_document, voices_from_entries,
};

fn voice(name: &str, locale: &str) -> VoiceInfo {
    VoiceInfo { short_name: name.to_string(), locale: locale.to_string(), is_multilingual: name.contains("Multilingual") }
}

fn entry(name: Option<&str>, locale: Option<&str>) -> (Option<String>, Option<String>) {
    (name.map(|s| s.to_string()), locale.map(|s| s.to_string()))
}

fn names(voices: &[VoiceInfo]) -> Vec<String> {
    voices.iter().map(|v| v.short_name.clone()).collect()
}

#[test]
fn voice_list_is_sorted_by_short_name() {
    let entries = vec![
        entry(Some("it-IT-ElsaNeural"), Some("it-IT")),
        entry(Some("en-US-AvaMultilingualNeural"), Some("en-US")),
        entry(None, Some("fr-FR")),
        entry(Some(""), Some("de-DE")),
        entry(Some("de-DE-KatjaNeural"), None),
    ];
    let voices = voices_from_entries(&entries);
    assert_eq!(names(&voices), vec!["de-DE-KatjaNeural", "en-US-AvaMultilingualNeural", "it-IT-ElsaNeural"]);
    assert_eq!(voices[0].locale, "");
    assert!(voices[1].is_multilingual);
    assert!(!voices[2].is_multilingual);
}

#[test]
fn voice_sort_keeps_the_order_of_equal_names() {
    let entries = vec![
        entry(Some("b"), Some("first")),
        entry(Some("a"), Some("x")),
        entry(Some("b"), Some("second")),
        entry(Some("b"), Some("third")),
    ];
    let voices = voices_from_entries(&entries);
    let pairs: Vec<(String, String)> = voices.iter().map(|v| (v.short_name.clone(), v.locale.clone())).collect();
    assert_eq!(
        pairs,
        vec![
            ("a".to_string(), "x".to_string()),
            ("b".to_string(), "first".to_string()),
            ("b".to_string(), "second".to_string()),
            ("b".to_string(), "third".to_string()),
        ]
    );
}

#[test]
fn voice_document_that_is_not_a_list_is_refused() {
    assert_eq!(voices_from_document(None).unwrap_err(), "Risposta non valida");
    assert!(voices_from_document(Some(Vec::new())).unwrap().is_empty());
}

#[test]
fn voice_list_is_read_from_the_service_text() {
    let body = r#"[{"ShortName":"it-IT-IsabellaNeural","Locale":"it-IT"},{"ShortName":"en-GB-RyanNeural","Locale":"en-GB"},{"Locale":"xx"}]"#;
    let voices = voice_list_from_response(body).unwrap();
    assert_eq!(names(&voices), vec!["en-GB-RyanNeural", "it-IT-IsabellaNeural"]);
    assert_eq!(voices[1].locale, "it-IT");
    assert_eq!(voice_list_from_response(r#"{"voices": []}"#).unwrap_err(), "Risposta non valida");
    assert_eq!(voice_list_from_response("not json").unwrap_err(), "error decoding response body");
}

#[test]
fn language_codes_come_from_locales() {
    assert_eq!(voice_locale_language_code("en-US").as_deref(), Some("en"));
    assert_eq!(voice_locale_language_code(" PT_br").as_deref(), Some("pt"));
    assert_eq!(voice_locale_language_code("-US"), None);
    let voices = vec![voice("a", "it-IT"), voice("b", "en-US"), voice("c", "en-GB"), voice("d", "")];
    assert_eq!(collect_voice_language_codes(&voices), vec!["en", "it"]);
}

#[test]
fn voice_list_lines_and_selection() {
    let voices = vec![voice("en-US-A", "en-US"), voice("it-IT-B", "it-IT"), voice("en-US-CMultilingual", "en-US")];
    let display: Vec<String> = vec!["A".into(), "B".into(), "C".into()];
    let items = voice_combo_items(&voices, &display, "it-IT-B", false, None, "none");
    assert_eq!(items.labels, vec!["A (en-US)", "B (it-IT)", "C (en-US)"]);
    assert_eq!(items.voice_indices, vec![0, 1, 2]);
    assert_eq!(items.selection, Some(1));
    let en = voice_combo_items(&voices, &display, "it-IT-B", false, Some("en"), "none");
    assert_eq!(en.voice_indices, vec![0, 2]);
    assert_eq!(en.selection, Some(0));
    let multi = voice_combo_items(&voices, &display, "en-US-CMultilingual", true, None, "none");
    assert_eq!(multi.voice_indices, vec![2]);
    assert_eq!(multi.selection, Some(0));
    let nothing = voice_combo_items(&voices, &display, "x", true, Some("it"), "none");
    assert!(nothing.labels.is_empty());
    assert_eq!(nothing.selection, None);
    let empty = voice_combo_items(&[], &[], "x", false, None, "No voices");
    assert_eq!(empty.labels, vec!["No voices"]);
    assert_eq!(empty.selection, Some(0));
}

#[test]
fn voice_list_selects_the_last_line_of_the_voice() {
    let voices = vec![voice("same", "en-US"), voice("same", "en-GB")];
    let display: Vec<String> = vec!["same".into(), "same".into()];
    let items = voice_combo_items(&voices, &display, "same", false, None, "none");
    assert_eq!(items.selection, Some(1));
}

#[test]
fn short_name_from_voice_line() {
    assert_eq!(selected_voice_short_name_from_combo_text("it-IT-ElsaNeural (it-IT)").as_deref(), Some("it-IT-ElsaNeural"));
    assert_eq!(selected_voice_short_name_from_combo_text("  plain  ").as_deref(), Some("plain"));
    assert_eq!(selected_voice_short_name_from_combo_text(" (it-IT)"), None);
    assert_eq!(selected_voice_short_name_from_combo_text(""), None);
    assert_eq!(selected_voice_short_name_from_combo_text("a(b) (c)").as_deref(), Some("a(b)"));
}

#[test]
fn voice_line_position_by_short_name() {
    let voices = vec![voice("a", "x"), voice("b", "y")];
    assert_eq!(voice_combo_position(&[1, 0], &voices, "a"), Some(1));
    assert_eq!(voice_combo_position(&[7, 0], &voices, "a"), Some(1));
    assert_eq!(voice_combo_position(&[1, 0], &voices, "c"), None);
    assert_eq!(voice_combo_position(&[1, 0], &voices, "  "), None);
}

#[test]
fn voice_language_choice() {
    let codes: Vec<String> = vec!["de".into(), "en".into(), "it".into()];
    let voices = vec![voice("it-IT-B", "it-IT"), voice("en-US-A", "en-US")];
    assert_eq!(voice_language_selection(&codes, Some("en"), &voices, "it-IT-B"), Some(1));
    assert_eq!(voice_language_selection(&codes, Some("fr"), &voices, "it-IT-B"), Some(2));
    assert_eq!(voice_language_selection(&codes, None, &voices, "unknown"), Some(0));
    assert_eq!(voice_language_selection(&[], None, &voices, "it-IT-B"), None);
}

#[test]
fn refreshing_a_voice_list_with_its_language_list() {
    let catalog = Catalog::new();
    let labels = options_labels(&catalog, Language::English);
    let voices = vec![voice("it-IT-B", "it-IT"), voice("en-US-A", "en-US"), voice("en-GB-C", "en-GB")];
    let display: Vec<String> = voices.iter().map(|v| v.short_name.clone()).collect();
    let r = refresh_voice_list(true, &voices, &display, None, "en-GB-C", false, "none", &catalog, Language::English, &labels);
    assert_eq!(r.language_codes, vec!["en", "it"]);
    assert_eq!(r.language_names.len(), 2);
    assert_eq!(r.language_selection, Some(0));
    assert_eq!(r.items.voice_indices, vec![1, 2]);
    assert_eq!(r.items.selection, Some(1));
    let hidden = refresh_voice_list(false, &voices, &display, None, "en-GB-C", false, "none", &catalog, Language::English, &labels);
    assert!(hidden.language_codes.is_empty());
    assert_eq!(hidden.items.voice_indices, vec![0, 1, 2]);
    assert_eq!(hidden.items.selection, Some(2));
}

#[test]
fn engine_lists() {
    assert_eq!(listed_engine(3, TtsEngine::Sapi5), TtsEngine::Google);
    assert_eq!(listed_engine(7, TtsEngine::Sapi5), TtsEngine::Edge);
    assert_eq!(listed_engine(-1, TtsEngine::Sapi5), TtsEngine::Sapi5);
    assert_eq!(selected_tts_engine(0, TtsEngine::Sapi4), TtsEngine::Edge);
    assert_eq!(selected_tts_engine(7, TtsEngine::Sapi4), TtsEngine::Sapi4);
    for e in [TtsEngine::Edge, TtsEngine::Google, TtsEngine::Sapi5, TtsEngine::Sapi4] {
        assert_eq!(selected_tts_engine(engine_position(e), TtsEngine::Edge), e);
        assert_eq!(listed_engine(engine_position(e), TtsEngine::Sapi4), e);
    }
}

#[test]
fn voice_panel_shows_language_list_for_edge_only() {
    let v = voice_panel_view(true, TtsEngine::Edge, false, TtsEngine::Edge, false, TtsEngine::Sapi5, false, true, true);
    assert!(v.show_language);
    assert!(v.show_dialogue_language);
    assert!(!v.show_dialogue_secondary_language);
    assert!(!v.show_manage_google_voices);
    let g = voice_panel_view(true, TtsEngine::Google, true, TtsEngine::Edge, true, TtsEngine::Edge, false, false, true);
    assert!(!g.show_language);
    assert!(g.show_manage_google_voices);
    assert!(!g.filter_multilingual);
    assert!(!g.show_dialogue_language);
    let off = voice_panel_view(false, TtsEngine::Edge, false, TtsEngine::Edge, false, TtsEngine::Edge, false, true, true);
    assert!(!off.show_language && !off.show_dialogue_language && !off.show_dialogue_secondary_language);
    assert!(off.multilingual_enabled);
}

#[test]
fn sapi4_voice_numbers() {
    assert_eq!(sapi4_voice_index("Mary#3|en"), 3);
    assert_eq!(sapi4_voice_index("Mike#12"), 12);
    assert_eq!(sapi4_voice_index("Sam"), 1);
    assert_eq!(sapi4_voice_index("Bad#x|y"), 1);
    assert_eq!(sapi4_voice_index("Neg#-2|z"), -2);
    assert_eq!(sapi4_voice_index("Two#4#5|z"), 1);
}
