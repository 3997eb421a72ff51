use sonarpad_options::model::{TtsEngine, TtsTuning, VoiceProfile, DEFAULT_VOICE_PROFILE_NAME};
use sonarpad_options::profiles::{
    add_voice_profile, deletable_voice_profile_name, finalize_voice_profiles, is_default_voice_profile_name,
    next_voice_profile_name, open_voice_profiles, profile_combo_selection, remove_voice_profile, rename_voice_profile,
    unique_voice_profile_name_for_rename, voice_profile_actions_hidden, voice_profile_form,
    voice_profile_tuning_for_engine,
};

fn profile(name: &str, voice: &str) -> VoiceProfile {
    VoiceProfile {
        name: name.to_string(),
        tts_engine: TtsEngine::Edge,
        tts_voice: voice.to_string(),
        tts_only_multilingual: false,
        tts_manual_tuning: false,
        edge_tts_tuning: TtsTuning { rate: 1, pitch: 2, volume: 100 },
        google_tts_tuning: TtsTuning { rate: 3, pitch: 4, volume: 90 },
        sapi5_tts_tuning: TtsTuning { rate: 5, pitch: 6, volume: 80 },
        sapi4_tts_tuning: TtsTuning { rate: 7, pitch: 8, volume: 70 },
        use_dialogue_voice: false,
        dialogue_tts_engine: TtsEngine::Sapi5,
        dialogue_voice: String::new(),
        dialogue_voice_rate: 0,
        dialogue_voice_pitch: 0,
        dialogue_voice_volume: 100,
        dialogue_use_secondary_voice: false,
        dialogue_secondary_tts_engine: TtsEngine::Google,
        dialogue_secondary_voice: String::new(),
        dialogue_secondary_voice_rate: 0,
        dialogue_secondary_voice_pitch: 0,
        dialogue_secondary_voice_volume: 100,
    }
}

fn names(profiles: &[VoiceProfile]) -> Vec<String> {
    profiles.iter().map(|p| p.name.clone()).collect()
}

#[test]
fn new_profile_names_take_the_first_free_number() {
    assert_eq!(next_voice_profile_name(&[]), "Profilo 1");
    let list = vec![profile("profilo 1", "a"), profile("Profilo 3", "b"), profile(DEFAULT_VOICE_PROFILE_NAME, "c")];
    assert_eq!(next_voice_profile_name(&list), "Profilo 2");
}

#[test]
fn renamed_profiles_get_unique_names() {
    let list = vec![profile("Work", "a"), profile("Home", "b"), profile("home 2", "c")];
    assert_eq!(unique_voice_profile_name_for_rename("  Car ", &list, 0), "Car");
    assert_eq!(unique_voice_profile_name_for_rename("Work", &list, 0), "Work");
    assert_eq!(unique_voice_profile_name_for_rename("HOME", &list, 0), "HOME 3");
    assert_eq!(unique_voice_profile_name_for_rename("  ", &list, 0), "");
}

#[test]
fn renaming_follows_the_active_profile() {
    let mut list = vec![profile(DEFAULT_VOICE_PROFILE_NAME, "a"), profile("Work", "b")];
    let mut active = "work".to_string();
    assert!(rename_voice_profile(&mut list, &mut active, 1, "Office"));
    assert_eq!(names(&list), vec![DEFAULT_VOICE_PROFILE_NAME, "Office"]);
    assert_eq!(list[1].tts_voice, "b");
    assert_eq!(active, "Office");
    assert!(!rename_voice_profile(&mut list, &mut active, 0, "Other"));
    assert!(!rename_voice_profile(&mut list, &mut active, 1, "   "));
    assert!(!rename_voice_profile(&mut list, &mut active, 5, "X"));
    assert_eq!(names(&list), vec![DEFAULT_VOICE_PROFILE_NAME, "Office"]);
}

#[test]
fn adding_makes_the_new_profile_active() {
    let mut list = vec![profile(DEFAULT_VOICE_PROFILE_NAME, "a")];
    let mut active = DEFAULT_VOICE_PROFILE_NAME.to_string();
    let name = add_voice_profile(&mut list, &mut active, profile("ignored", "voice-x"));
    assert_eq!(name, "Profilo 1");
    assert_eq!(active, "Profilo 1");
    assert_eq!(list.len(), 2);
    assert_eq!(list[1].name, "Profilo 1");
    assert_eq!(list[1].tts_voice, "voice-x");
}

#[test]
fn the_default_profile_cannot_be_deleted() {
    let mut list = vec![profile(DEFAULT_VOICE_PROFILE_NAME, "a"), profile("Work", "b")];
    assert!(is_default_voice_profile_name(&DEFAULT_VOICE_PROFILE_NAME.to_uppercase()));
    assert_eq!(deletable_voice_profile_name(&list, 0), None);
    assert_eq!(deletable_voice_profile_name(&list, -1), None);
    assert_eq!(deletable_voice_profile_name(&list, 1).as_deref(), Some("Work"));
    assert!(voice_profile_actions_hidden(&list, 0));
    assert!(voice_profile_actions_hidden(&list, 9));
    assert!(!voice_profile_actions_hidden(&list, 1));
    let mut active = "Work".to_string();
    assert_eq!(remove_voice_profile(&mut list, &mut active, "WORK").as_deref(), Some("Work"));
    assert_eq!(active, DEFAULT_VOICE_PROFILE_NAME);
    assert_eq!(names(&list), vec![DEFAULT_VOICE_PROFILE_NAME]);
    assert_eq!(remove_voice_profile(&mut list, &mut active, "gone"), None);
}

#[test]
fn profile_list_selection() {
    let list = vec![profile(DEFAULT_VOICE_PROFILE_NAME, "a"), profile("Work", "b"), profile("work", "c")];
    assert_eq!(profile_combo_selection(&list, "WORK"), 2);
    assert_eq!(profile_combo_selection(&list, "none"), 0);
}

#[test]
fn profile_tuning_by_engine() {
    let p = profile("p", "v");
    assert_eq!(voice_profile_tuning_for_engine(&p, TtsEngine::Sapi4), TtsTuning { rate: 7, pitch: 8, volume: 70 });
    assert_eq!(voice_profile_tuning_for_engine(&p, TtsEngine::Google).volume, 90);
}

#[test]
fn profile_form_shows_the_chosen_profile() {
    let mut p = profile("p", "v");
    p.tts_engine = TtsEngine::Sapi5;
    p.tts_manual_tuning = true;
    let list = vec![profile("q", "w"), p];
    let form = voice_profile_form(&list, 1).unwrap();
    assert_eq!(form.engine_position, 1);
    assert_eq!(form.dialogue_engine_position, 1);
    assert_eq!(form.secondary_engine_position, 3);
    assert!(form.manual_tuning);
    assert_eq!(form.tuning, TtsTuning { rate: 5, pitch: 6, volume: 80 });
    assert!(voice_profile_form(&list, 2).is_none());
    assert!(voice_profile_form(&list, -1).is_none());
}

#[test]
fn opening_adds_the_default_profile() {
    let mut list = vec![profile("Work", "a")];
    let active = open_voice_profiles(&mut list, " work ", &profile("x", "current"));
    assert_eq!(active, "work");
    assert_eq!(names(&list), vec!["Work", DEFAULT_VOICE_PROFILE_NAME]);
    assert_eq!(list[1].tts_voice, "current");
    let mut list2 = vec![profile(DEFAULT_VOICE_PROFILE_NAME, "a")];
    assert_eq!(open_voice_profiles(&mut list2, "missing", &profile("x", "c")), DEFAULT_VOICE_PROFILE_NAME);
    assert_eq!(list2.len(), 1);
}

#[test]
fn saving_replaces_the_active_profile() {
    let mut list = vec![profile(DEFAULT_VOICE_PROFILE_NAME, "old-default"), profile("Work", "old-work")];
    let active = finalize_voice_profiles(&mut list, "WORK", &profile("x", "new"));
    assert_eq!(active, "WORK");
    assert_eq!(names(&list), vec![DEFAULT_VOICE_PROFILE_NAME, "WORK"]);
    assert_eq!(list[0].tts_voice, "old-default");
    assert_eq!(list[1].tts_voice, "new");
    let mut fresh: Vec<VoiceProfile> = Vec::new();
    let active = finalize_voice_profiles(&mut fresh, "  ", &profile("x", "v"));
    assert_eq!(active, DEFAULT_VOICE_PROFILE_NAME);
    assert_eq!(names(&fresh), vec![DEFAULT_VOICE_PROFILE_NAME]);
    let mut other = vec![profile("A", "a")];
    let active = finalize_voice_profiles(&mut other, "B", &profile("x", "v"));
    assert_eq!(active, "B");
    assert_eq!(names(&other), vec!["A", DEFAULT_VOICE_PROFILE_NAME, "B"]);
}
