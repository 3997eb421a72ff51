use sonarpad_options::gemini::{
    gemini_api_error, gemini_api_key_for_request, gemini_model_display_label, gemini_model_id_from_combo_text,
    gemini_model_initial_items, gemini_model_selection, gemini_model_setting, gemini_models_from_document,
    gemini_models_from_response, gemini_models_update, offered_gemini_models, refresh_gemini_models,
    GeminiModelsUpdate, GeminiRefreshStart, DEFAULT_GEMINI_MODEL, GEMINI_FLASH_LITE_LATEST_MODEL,
};
use sonarpad_options::json::{GeminiModelEntry, GeminiModelsDocument};

fn model(name: &str, methods: &[&str]) -> GeminiModelEntry {
    GeminiModelEntry {
        name: Some(name.to_string()),
        methods: Some(methods.iter().map(|m| Some(m.to_string())).collect()),
    }
}

#[test]
fn model_labels_round_trip() {
    assert_eq!(gemini_model_display_label(DEFAULT_GEMINI_MODEL), "Gemini Flash (latest)");
    assert_eq!(gemini_model_display_label(GEMINI_FLASH_LITE_LATEST_MODEL), "Gemini Flash-Lite (latest)");
    assert_eq!(gemini_model_display_label(" gemini-2.5-pro "), "gemini-2.5-pro");
    assert_eq!(gemini_model_id_from_combo_text("Gemini Flash (latest)"), DEFAULT_GEMINI_MODEL);
    assert_eq!(gemini_model_id_from_combo_text(" Gemini Flash-Lite (latest) "), GEMINI_FLASH_LITE_LATEST_MODEL);
    for m in [DEFAULT_GEMINI_MODEL, GEMINI_FLASH_LITE_LATEST_MODEL, "gemini-2.0-flash", " gemini-x "] {
        assert_eq!(gemini_model_id_from_combo_text(&gemini_model_display_label(m)), m.trim());
    }
}

#[test]
fn a_model_named_like_a_friendly_label_does_not_round_trip() {
    let odd = "Gemini Flash (latest)";
    assert_eq!(gemini_model_id_from_combo_text(&gemini_model_display_label(odd)), DEFAULT_GEMINI_MODEL);
}

#[test]
fn api_key_must_not_be_blank() {
    assert_eq!(gemini_api_key_for_request("  "), Err("Gemini API key is empty".to_string()));
    assert_eq!(gemini_api_key_for_request(" k3y "), Ok("k3y".to_string()));
    match refresh_gemini_models("\t") {
        GeminiRefreshStart::MissingKey => {}
        _ => panic!("a blank key starts nothing"),
    }
    match refresh_gemini_models(" abc ") {
        GeminiRefreshStart::Fetch { api_key } => assert_eq!(api_key, "abc"),
        _ => panic!("a key starts a request"),
    }
}

#[test]
fn api_errors_name_the_status() {
    assert_eq!(gemini_api_error(403, Some("API key not valid")), "HTTP 403: API key not valid");
    assert_eq!(gemini_api_error(500, None), "HTTP 500");
}

#[test]
fn offered_models_are_sorted_and_unique() {
    let entries = vec![
        model("models/gemini-2.5-pro", &["generateContent", "countTokens"]),
        model("models/embedding-001", &["embedContent"]),
        model("models/gemini-1.5-flash", &["generateContent"]),
        model("models/text-bison", &["generateContent"]),
        model("models/gemini-1.5-flash", &["generateContent"]),
        GeminiModelEntry { name: None, methods: Some(vec![Some("generateContent".to_string())]) },
        GeminiModelEntry { name: Some("models/gemini-no-methods".to_string()), methods: None },
    ];
    assert_eq!(offered_gemini_models(&entries), Ok(vec!["gemini-1.5-flash".to_string(), "gemini-2.5-pro".to_string()]));
    assert_eq!(offered_gemini_models(&[]), Err("No compatible Gemini models found".to_string()));
}

#[test]
fn failed_status_gives_the_api_error() {
    let doc = GeminiModelsDocument { error_message: Some("quota".to_string()), models: None };
    assert_eq!(gemini_models_from_document(429, &doc), Err("HTTP 429: quota".to_string()));
    let ok = GeminiModelsDocument { error_message: None, models: Some(vec![model("models/gemini-pro", &["generateContent"])]) };
    assert_eq!(gemini_models_from_document(200, &ok), Ok(vec!["gemini-pro".to_string()]));
    let empty = GeminiModelsDocument { error_message: None, models: None };
    assert_eq!(gemini_models_from_document(200, &empty), Err("No compatible Gemini models found".to_string()));
}

#[test]
fn models_are_read_from_the_response_text() {
    let body = r#"{"models":[{"name":"models/gemini-2.0-flash","supportedGenerationMethods":["generateContent"]},{"name":"models/gemini-2.0-flash","supportedGenerationMethods":["generateContent"]},{"name":"models/aqa","supportedGenerationMethods":["generateAnswer"]}]}"#;
    assert_eq!(gemini_models_from_response(200, body), Ok(vec!["gemini-2.0-flash".to_string()]));
    let error = r#"{"error":{"code":400,"message":"API key not valid."}}"#;
    assert_eq!(gemini_models_from_response(400, error), Err("HTTP 400: API key not valid.".to_string()));
    assert_eq!(gemini_models_from_response(200, "<html>"), Err("error decoding response body".to_string()));
    assert_eq!(gemini_models_from_response(500, ""), Err("error decoding response body".to_string()));
}

#[test]
fn model_selection_after_a_refresh() {
    let models: Vec<String> = vec!["gemini-1.5-pro".into(), "gemini-flash-latest".into(), "gemini-pro".into()];
    assert_eq!(gemini_model_selection(&models, "Gemini Flash (latest)"), 1);
    assert_eq!(gemini_model_selection(&models, "gemini-pro"), 2);
    assert_eq!(gemini_model_selection(&models, "gone"), 0);
    let twice: Vec<String> = vec!["a".into(), "a".into()];
    assert_eq!(gemini_model_selection(&twice, "a"), 1);
    match gemini_models_update(Ok(models.clone()), "gemini-pro") {
        GeminiModelsUpdate::Replace { labels, selection } => {
            assert_eq!(labels, vec!["gemini-1.5-pro", "Gemini Flash (latest)", "gemini-pro"]);
            assert_eq!(selection, 2);
        }
        GeminiModelsUpdate::Failed { .. } => panic!("models were given"),
    }
    match gemini_models_update(Err("HTTP 500".to_string()), "x") {
        GeminiModelsUpdate::Failed { error } => assert_eq!(error, "HTTP 500"),
        GeminiModelsUpdate::Replace { .. } => panic!("an error was given"),
    }
}

#[test]
fn model_setting_and_initial_list() {
    assert_eq!(gemini_model_setting("  "), DEFAULT_GEMINI_MODEL);
    assert_eq!(gemini_model_setting("Gemini Flash-Lite (latest)"), GEMINI_FLASH_LITE_LATEST_MODEL);
    let (items, selected) = gemini_model_initial_items("");
    assert_eq!(items, vec!["Gemini Flash (latest)", "Gemini Flash-Lite (latest)"]);
    assert_eq!(selected, 0);
    let (items, selected) = gemini_model_initial_items("gemini-flash-lite-latest");
    assert_eq!(items.len(), 2);
    assert_eq!(selected, 1);
    let (items, selected) = gemini_model_initial_items("gemini-2.5-pro");
    assert_eq!(items, vec!["Gemini Flash (latest)", "Gemini Flash-Lite (latest)", "gemini-2.5-pro"]);
    assert_eq!(selected, 2);
    let (_, selected) = gemini_model_initial_items(" gemini-x ");
    assert_eq!(selected, 0);
}
