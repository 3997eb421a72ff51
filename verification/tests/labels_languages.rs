use sonarpad_options::i18n::Catalog;
use sonarpad_options::labels::{localized_voice_language_name, options_labels, podcast_country_label};
use sonarpad_options::languages::{
    sonarpad_language_code, sonarpad_language_from_index, sonarpad_language_index, whisper_audio_language_from_code,
};
use sonarpad_options::model::Language;

const ALL: [Language; 17] = [
    Language::Italian,
    Language::English,
    Language::Spanish,
    Language::Portuguese,
    Language::PortugueseBrazilian,
    Language::Swedish,
    Language::Vietnamese,
    Language::Czech,
    Language::Polish,
    Language::French,
    Language::Serbian,
    Language::Ukrainian,
    Language::Lithuanian,
    Language::Russian,
    Language::Chinese,
    Language::Hindi,
    Language::German,
];

#[test]
fn catalog_translates_or_gives_the_key() {
    let mut c = Catalog::new();
    c.add(Language::Italian, "options.title", "Opzioni");
    c.add(Language::Italian, "options.title", "Ignorata");
    assert_eq!(c.tr(Language::Italian, "options.title"), "Opzioni");
    assert_eq!(c.tr(Language::English, "options.title"), "options.title");
    assert_eq!(c.tr_or(Language::English, "options.title", "Options"), "Options");
    assert_eq!(c.tr_or(Language::Italian, "options.title", "Options"), "Opzioni");
}

#[test]
fn labels_come_from_the_catalog() {
    let mut c = Catalog::new();
    c.add(Language::French, "options.title", "Options de Sonarpad");
    c.add(Language::French, "options.tab.voice", "Voix");
    let labels = options_labels(&c, Language::French);
    assert_eq!(labels.title, "Options de Sonarpad");
    assert_eq!(labels.tab_voice, "Voix");
    assert_eq!(labels.tab_general, "options.tab.general");
    let plain = options_labels(&Catalog::new(), Language::Italian);
    assert_eq!(plain.title, "options.title");
}

#[test]
fn voice_language_names() {
    let mut c = Catalog::new();
    c.add(Language::English, "voice.lang.it", "Italian (voices)");
    let labels = options_labels(&c, Language::English);
    assert_eq!(localized_voice_language_name(&c, Language::English, &labels, "it"), "Italian (voices)");
    assert_eq!(localized_voice_language_name(&c, Language::English, &labels, "en"), labels.lang_en);
    assert_eq!(localized_voice_language_name(&c, Language::Italian, &labels, "de"), "Tedesco");
    assert_eq!(localized_voice_language_name(&c, Language::English, &labels, "de"), "German");
    assert_eq!(localized_voice_language_name(&c, Language::English, &labels, "ja"), "JA");
}

#[test]
fn podcast_country_labels() {
    let mut c = Catalog::new();
    c.add(Language::Italian, "options.podcast_country.us", "Stati Uniti");
    assert_eq!(podcast_country_label(&c, Language::Italian, "us", "United States"), "Stati Uniti");
    assert_eq!(podcast_country_label(&c, Language::English, "us", "United States"), "United States");
}

#[test]
fn language_indices_and_codes_round_trip() {
    for (i, l) in ALL.iter().enumerate() {
        assert_eq!(sonarpad_language_index(*l), i);
        assert_eq!(sonarpad_language_from_index(i as isize), Some(*l));
        assert_eq!(whisper_audio_language_from_code(sonarpad_language_code(*l)), Some(*l));
    }
    assert_eq!(sonarpad_language_from_index(17), None);
    assert_eq!(sonarpad_language_from_index(-1), None);
    assert_eq!(sonarpad_language_code(Language::PortugueseBrazilian), "pt-BR");
    assert_eq!(whisper_audio_language_from_code(" pt-br "), Some(Language::PortugueseBrazilian));
    assert_eq!(whisper_audio_language_from_code("auto"), None);
}
