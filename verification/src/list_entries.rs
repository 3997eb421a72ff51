//! The entries of the dialog's lists of fixed choices, in the order the
//! dialog adds them, each named by the translation key of its label; and the
//! laws that tie each list's positions to those entries.

use vstd::prelude::*;

use crate::choices::{
    dictionary_table, wikipedia_table, date_display_from_selection_spec, date_display_position_spec, indentation_mode_from_selection_spec, indentation_mode_position_spec, marker_from_selection_spec, marker_position_spec, open_behavior_from_selection_spec, open_behavior_position_spec, part_announcement_from_selection_spec, part_announcement_position_spec, part_naming_from_selection_spec, part_naming_position_spec, podcast_confirm_mode_from_selection_spec, podcast_confirm_mode_position_spec, quick_copy_mode_from_selection_spec, quick_copy_mode_position_spec, rss_confirm_mode_from_selection_spec, rss_confirm_mode_position_spec, subtitle_mode_from_selection_spec, subtitle_mode_position_spec, time_display_from_selection_spec, time_display_position_spec, unread_label_from_selection_spec, unread_label_position_spec,
};
use crate::languages::{language_at_spec, language_code_spec, language_index_spec};
use crate::voices::{engine_position_spec, listed_engine_spec, selected_engine_spec};
use crate::model::{
    Language, TtsEngine, AudiobookPartAnnouncementMode, AudiobookPartNamingMode, IndentationMode, ListDateDisplayMode, ListTimeDisplayMode, ModifiedMarkerPosition, OpenBehavior, PodcastDeleteConfirmMode, RssDeleteConfirmMode, RssPodcastUnreadLabelPosition, RssQuickCopyMode, SubtitleReadMode,
};

verus! {

/// The labels of the modified-marker position list, top to bottom, as translation keys.
pub open spec fn marker_entry_keys() -> Seq<Seq<char>> {
    seq!["options.modified_marker_position.end"@, "options.modified_marker_position.beginning"@]
}

/// The translation key of the label that names the modified-marker position `value`.
pub open spec fn marker_key(value: ModifiedMarkerPosition) -> Seq<char> {
    match value {
        ModifiedMarkerPosition::End => "options.modified_marker_position.end"@,
        ModifiedMarkerPosition::Beginning => "options.modified_marker_position.beginning"@,
    }
}

/// The modified-marker position list shows each value at the entry labelled with that value's
/// name, and each entry chooses the value its label names; any other
/// selection chooses End.
pub proof fn lemma_marker_entries_match(value: ModifiedMarkerPosition, selection: isize)
    ensures
        (marker_position_spec(value) as int) < 2,
        marker_entry_keys()[marker_position_spec(value) as int] == marker_key(value),
        0 <= selection < 2 ==> marker_key(marker_from_selection_spec(selection)) == marker_entry_keys()[selection as int],
        !(0 <= selection < 2) ==> marker_from_selection_spec(selection) == ModifiedMarkerPosition::End,
{
    match value {
        ModifiedMarkerPosition::End => {},
        ModifiedMarkerPosition::Beginning => {},
    }
}

/// The labels of the opening list, top to bottom, as translation keys.
pub open spec fn open_behavior_entry_keys() -> Seq<Seq<char>> {
    seq!["options.open.new_tab"@, "options.open.new_window"@]
}

/// The translation key of the label that names the opening `value`.
pub open spec fn open_behavior_key(value: OpenBehavior) -> Seq<char> {
    match value {
        OpenBehavior::NewTab => "options.open.new_tab"@,
        OpenBehavior::NewWindow => "options.open.new_window"@,
    }
}

/// The opening list shows each value at the entry labelled with that value's
/// name, and each entry chooses the value its label names; any other
/// selection chooses NewTab.
pub proof fn lemma_open_behavior_entries_match(value: OpenBehavior, selection: isize)
    ensures
        (open_behavior_position_spec(value) as int) < 2,
        open_behavior_entry_keys()[open_behavior_position_spec(value) as int] == open_behavior_key(value),
        0 <= selection < 2 ==> open_behavior_key(open_behavior_from_selection_spec(selection)) == open_behavior_entry_keys()[selection as int],
        !(0 <= selection < 2) ==> open_behavior_from_selection_spec(selection) == OpenBehavior::NewTab,
{
    match value {
        OpenBehavior::NewTab => {},
        OpenBehavior::NewWindow => {},
    }
}

/// The labels of the indentation list, top to bottom, as translation keys.
pub open spec fn indentation_entry_keys() -> Seq<Seq<char>> {
    seq!["options.indent.default"@, "options.indent.tabs"@, "options.indent.spaces"@]
}

/// The translation key of the label that names the indentation `value`.
pub open spec fn indentation_key(value: IndentationMode) -> Seq<char> {
    match value {
        IndentationMode::Default => "options.indent.default"@,
        IndentationMode::Tabs => "options.indent.tabs"@,
        IndentationMode::Spaces => "options.indent.spaces"@,
    }
}

/// The indentation list shows each value at the entry labelled with that value's
/// name, and each entry chooses the value its label names; any other
/// selection chooses Default.
pub proof fn lemma_indentation_entries_match(value: IndentationMode, selection: isize)
    ensures
        (indentation_mode_position_spec(value) as int) < 3,
        indentation_entry_keys()[indentation_mode_position_spec(value) as int] == indentation_key(value),
        0 <= selection < 3 ==> indentation_key(indentation_mode_from_selection_spec(selection)) == indentation_entry_keys()[selection as int],
        !(0 <= selection < 3) ==> indentation_mode_from_selection_spec(selection) == IndentationMode::Default,
{
    match value {
        IndentationMode::Default => {},
        IndentationMode::Tabs => {},
        IndentationMode::Spaces => {},
    }
}

/// The labels of the subtitle reading list, top to bottom, as translation keys.
pub open spec fn subtitle_entry_keys() -> Seq<Seq<char>> {
    seq!["options.subtitle_mode.off"@, "options.subtitle_mode.nvda"@, "options.subtitle_mode.user"@, "options.subtitle_mode.record"@]
}

/// The translation key of the label that names the subtitle reading `value`.
pub open spec fn subtitle_key(value: SubtitleReadMode) -> Seq<char> {
    match value {
        SubtitleReadMode::Off => "options.subtitle_mode.off"@,
        SubtitleReadMode::Nvda => "options.subtitle_mode.nvda"@,
        SubtitleReadMode::User => "options.subtitle_mode.user"@,
        SubtitleReadMode::Record => "options.subtitle_mode.record"@,
    }
}

/// The subtitle reading list shows each value at the entry labelled with that value's
/// name, and each entry chooses the value its label names; any other
/// selection chooses Off.
pub proof fn lemma_subtitle_entries_match(value: SubtitleReadMode, selection: isize)
    ensures
        (subtitle_mode_position_spec(value) as int) < 4,
        subtitle_entry_keys()[subtitle_mode_position_spec(value) as int] == subtitle_key(value),
        0 <= selection < 4 ==> subtitle_key(subtitle_mode_from_selection_spec(selection)) == subtitle_entry_keys()[selection as int],
        !(0 <= selection < 4) ==> subtitle_mode_from_selection_spec(selection) == SubtitleReadMode::Off,
{
    match value {
        SubtitleReadMode::Off => {},
        SubtitleReadMode::Nvda => {},
        SubtitleReadMode::User => {},
        SubtitleReadMode::Record => {},
    }
}

/// The labels of the RSS delete confirmation list, top to bottom, as translation keys.
pub open spec fn rss_confirm_entry_keys() -> Seq<Seq<char>> {
    seq!["options.confirm_delete.feed"@, "options.confirm_delete.article"@, "options.confirm_delete.both"@, "options.confirm_delete.none"@]
}

/// The translation key of the label that names the RSS delete confirmation `value`.
pub open spec fn rss_confirm_key(value: RssDeleteConfirmMode) -> Seq<char> {
    match value {
        RssDeleteConfirmMode::Feed => "options.confirm_delete.feed"@,
        RssDeleteConfirmMode::Article => "options.confirm_delete.article"@,
        RssDeleteConfirmMode::Both => "options.confirm_delete.both"@,
        RssDeleteConfirmMode::Never => "options.confirm_delete.none"@,
    }
}

/// The RSS delete confirmation list shows each value at the entry labelled with that value's
/// name, and each entry chooses the value its label names; any other
/// selection chooses Both.
pub proof fn lemma_rss_confirm_entries_match(value: RssDeleteConfirmMode, selection: isize)
    ensures
        (rss_confirm_mode_position_spec(value) as int) < 4,
        rss_confirm_entry_keys()[rss_confirm_mode_position_spec(value) as int] == rss_confirm_key(value),
        0 <= selection < 4 ==> rss_confirm_key(rss_confirm_mode_from_selection_spec(selection)) == rss_confirm_entry_keys()[selection as int],
        !(0 <= selection < 4) ==> rss_confirm_mode_from_selection_spec(selection) == RssDeleteConfirmMode::Both,
{
    match value {
        RssDeleteConfirmMode::Feed => {},
        RssDeleteConfirmMode::Article => {},
        RssDeleteConfirmMode::Both => {},
        RssDeleteConfirmMode::Never => {},
    }
}

/// The labels of the podcast delete confirmation list, top to bottom, as translation keys.
pub open spec fn podcast_confirm_entry_keys() -> Seq<Seq<char>> {
    seq!["options.confirm_delete.podcast"@, "options.confirm_delete.episode"@, "options.confirm_delete.both"@, "options.confirm_delete.none"@]
}

/// The translation key of the label that names the podcast delete confirmation `value`.
pub open spec fn podcast_confirm_key(value: PodcastDeleteConfirmMode) -> Seq<char> {
    match value {
        PodcastDeleteConfirmMode::Podcast => "options.confirm_delete.podcast"@,
        PodcastDeleteConfirmMode::Episode => "options.confirm_delete.episode"@,
        PodcastDeleteConfirmMode::Both => "options.confirm_delete.both"@,
        PodcastDeleteConfirmMode::Never => "options.confirm_delete.none"@,
    }
}

/// The podcast delete confirmation list shows each value at the entry labelled with that value's
/// name, and each entry chooses the value its label names; any other
/// selection chooses Both.
pub proof fn lemma_podcast_confirm_entries_match(value: PodcastDeleteConfirmMode, selection: isize)
    ensures
        (podcast_confirm_mode_position_spec(value) as int) < 4,
        podcast_confirm_entry_keys()[podcast_confirm_mode_position_spec(value) as int] == podcast_confirm_key(value),
        0 <= selection < 4 ==> podcast_confirm_key(podcast_confirm_mode_from_selection_spec(selection)) == podcast_confirm_entry_keys()[selection as int],
        !(0 <= selection < 4) ==> podcast_confirm_mode_from_selection_spec(selection) == PodcastDeleteConfirmMode::Both,
{
    match value {
        PodcastDeleteConfirmMode::Podcast => {},
        PodcastDeleteConfirmMode::Episode => {},
        PodcastDeleteConfirmMode::Both => {},
        PodcastDeleteConfirmMode::Never => {},
    }
}

/// The labels of the quick copy list, top to bottom, as translation keys.
pub open spec fn quick_copy_entry_keys() -> Seq<Seq<char>> {
    seq!["options.rss_quick_copy.title"@, "options.rss_quick_copy.url"@, "options.rss_quick_copy.content"@, "options.rss_quick_copy.all"@]
}

/// The translation key of the label that names the quick copy `value`.
pub open spec fn quick_copy_key(value: RssQuickCopyMode) -> Seq<char> {
    match value {
        RssQuickCopyMode::Title => "options.rss_quick_copy.title"@,
        RssQuickCopyMode::Url => "options.rss_quick_copy.url"@,
        RssQuickCopyMode::Content => "options.rss_quick_copy.content"@,
        RssQuickCopyMode::All => "options.rss_quick_copy.all"@,
    }
}

/// The quick copy list shows each value at the entry labelled with that value's
/// name, and each entry chooses the value its label names; any other
/// selection chooses Title.
pub proof fn lemma_quick_copy_entries_match(value: RssQuickCopyMode, selection: isize)
    ensures
        (quick_copy_mode_position_spec(value) as int) < 4,
        quick_copy_entry_keys()[quick_copy_mode_position_spec(value) as int] == quick_copy_key(value),
        0 <= selection < 4 ==> quick_copy_key(quick_copy_mode_from_selection_spec(selection)) == quick_copy_entry_keys()[selection as int],
        !(0 <= selection < 4) ==> quick_copy_mode_from_selection_spec(selection) == RssQuickCopyMode::Title,
{
    match value {
        RssQuickCopyMode::Title => {},
        RssQuickCopyMode::Url => {},
        RssQuickCopyMode::Content => {},
        RssQuickCopyMode::All => {},
    }
}

/// The labels of the unread label position list, top to bottom, as translation keys.
pub open spec fn unread_label_entry_keys() -> Seq<Seq<char>> {
    seq!["options.unread_label_position.before"@, "options.unread_label_position.after"@]
}

/// The translation key of the label that names the unread label position `value`.
pub open spec fn unread_label_key(value: RssPodcastUnreadLabelPosition) -> Seq<char> {
    match value {
        RssPodcastUnreadLabelPosition::Before => "options.unread_label_position.before"@,
        RssPodcastUnreadLabelPosition::After => "options.unread_label_position.after"@,
    }
}

/// The unread label position list shows each value at the entry labelled with that value's
/// name, and each entry chooses the value its label names; any other
/// selection chooses Before.
pub proof fn lemma_unread_label_entries_match(value: RssPodcastUnreadLabelPosition, selection: isize)
    ensures
        (unread_label_position_spec(value) as int) < 2,
        unread_label_entry_keys()[unread_label_position_spec(value) as int] == unread_label_key(value),
        0 <= selection < 2 ==> unread_label_key(unread_label_from_selection_spec(selection)) == unread_label_entry_keys()[selection as int],
        !(0 <= selection < 2) ==> unread_label_from_selection_spec(selection) == RssPodcastUnreadLabelPosition::Before,
{
    match value {
        RssPodcastUnreadLabelPosition::Before => {},
        RssPodcastUnreadLabelPosition::After => {},
    }
}

/// The labels of the date display list, top to bottom, as translation keys.
pub open spec fn date_display_entry_keys() -> Seq<Seq<char>> {
    seq!["options.list_date.always"@, "options.list_date.never"@]
}

/// The translation key of the label that names the date display `value`.
pub open spec fn date_display_key(value: ListDateDisplayMode) -> Seq<char> {
    match value {
        ListDateDisplayMode::Always => "options.list_date.always"@,
        ListDateDisplayMode::Never => "options.list_date.never"@,
    }
}

/// The date display list shows each value at the entry labelled with that value's
/// name, and each entry chooses the value its label names; any other
/// selection chooses Always.
pub proof fn lemma_date_display_entries_match(value: ListDateDisplayMode, selection: isize)
    ensures
        (date_display_position_spec(value) as int) < 2,
        date_display_entry_keys()[date_display_position_spec(value) as int] == date_display_key(value),
        0 <= selection < 2 ==> date_display_key(date_display_from_selection_spec(selection)) == date_display_entry_keys()[selection as int],
        !(0 <= selection < 2) ==> date_display_from_selection_spec(selection) == ListDateDisplayMode::Always,
{
    match value {
        ListDateDisplayMode::Always => {},
        ListDateDisplayMode::Never => {},
    }
}

/// The labels of the time display list, top to bottom, as translation keys.
pub open spec fn time_display_entry_keys() -> Seq<Seq<char>> {
    seq!["options.list_time.always"@, "options.list_time.never"@, "options.list_time.only_if_multiple_same_day"@]
}

/// The translation key of the label that names the time display `value`.
pub open spec fn time_display_key(value: ListTimeDisplayMode) -> Seq<char> {
    match value {
        ListTimeDisplayMode::Always => "options.list_time.always"@,
        ListTimeDisplayMode::Never => "options.list_time.never"@,
        ListTimeDisplayMode::OnlyIfMultipleSameDay => "options.list_time.only_if_multiple_same_day"@,
    }
}

/// The time display list shows each value at the entry labelled with that value's
/// name, and each entry chooses the value its label names; any other
/// selection chooses Always.
pub proof fn lemma_time_display_entries_match(value: ListTimeDisplayMode, selection: isize)
    ensures
        (time_display_position_spec(value) as int) < 3,
        time_display_entry_keys()[time_display_position_spec(value) as int] == time_display_key(value),
        0 <= selection < 3 ==> time_display_key(time_display_from_selection_spec(selection)) == time_display_entry_keys()[selection as int],
        !(0 <= selection < 3) ==> time_display_from_selection_spec(selection) == ListTimeDisplayMode::Always,
{
    match value {
        ListTimeDisplayMode::Always => {},
        ListTimeDisplayMode::Never => {},
        ListTimeDisplayMode::OnlyIfMultipleSameDay => {},
    }
}

/// The labels of the part naming list, top to bottom, as translation keys.
pub open spec fn part_naming_entry_keys() -> Seq<Seq<char>> {
    seq!["options.choice.audiobook_part_naming.title_number"@, "options.choice.audiobook_part_naming.number_only"@, "options.choice.audiobook_part_naming.number_title"@]
}

/// The translation key of the label that names the part naming `value`.
pub open spec fn part_naming_key(value: AudiobookPartNamingMode) -> Seq<char> {
    match value {
        AudiobookPartNamingMode::TitleNumber => "options.choice.audiobook_part_naming.title_number"@,
        AudiobookPartNamingMode::NumberOnly => "options.choice.audiobook_part_naming.number_only"@,
        AudiobookPartNamingMode::NumberTitle => "options.choice.audiobook_part_naming.number_title"@,
    }
}

/// The part naming list shows each value at the entry labelled with that value's
/// name, and each entry chooses the value its label names; any other
/// selection chooses TitleNumber.
pub proof fn lemma_part_naming_entries_match(value: AudiobookPartNamingMode, selection: isize)
    ensures
        (part_naming_position_spec(value) as int) < 3,
        part_naming_entry_keys()[part_naming_position_spec(value) as int] == part_naming_key(value),
        0 <= selection < 3 ==> part_naming_key(part_naming_from_selection_spec(selection)) == part_naming_entry_keys()[selection as int],
        !(0 <= selection < 3) ==> part_naming_from_selection_spec(selection) == AudiobookPartNamingMode::TitleNumber,
{
    match value {
        AudiobookPartNamingMode::TitleNumber => {},
        AudiobookPartNamingMode::NumberOnly => {},
        AudiobookPartNamingMode::NumberTitle => {},
    }
}

/// The labels of the part announcement list, top to bottom, as translation keys.
pub open spec fn part_announcement_entry_keys() -> Seq<Seq<char>> {
    seq!["options.choice.audiobook_part_announcement.none"@, "options.choice.audiobook_part_announcement.title"@, "options.choice.audiobook_part_announcement.title_part_number"@, "options.choice.audiobook_part_announcement.file_name"@, "options.choice.audiobook_part_announcement.file_name_part_number"@]
}

/// The translation key of the label that names the part announcement `value`.
pub open spec fn part_announcement_key(value: AudiobookPartAnnouncementMode) -> Seq<char> {
    match value {
        AudiobookPartAnnouncementMode::Silent => "options.choice.audiobook_part_announcement.none"@,
        AudiobookPartAnnouncementMode::Title => "options.choice.audiobook_part_announcement.title"@,
        AudiobookPartAnnouncementMode::TitlePartNumber => "options.choice.audiobook_part_announcement.title_part_number"@,
        AudiobookPartAnnouncementMode::FileName => "options.choice.audiobook_part_announcement.file_name"@,
        AudiobookPartAnnouncementMode::FileNamePartNumber => "options.choice.audiobook_part_announcement.file_name_part_number"@,
    }
}

/// The part announcement list shows each value at the entry labelled with that value's
/// name, and each entry chooses the value its label names; any other
/// selection chooses Silent.
pub proof fn lemma_part_announcement_entries_match(value: AudiobookPartAnnouncementMode, selection: isize)
    ensures
        (part_announcement_position_spec(value) as int) < 5,
        part_announcement_entry_keys()[part_announcement_position_spec(value) as int] == part_announcement_key(value),
        0 <= selection < 5 ==> part_announcement_key(part_announcement_from_selection_spec(selection)) == part_announcement_entry_keys()[selection as int],
        !(0 <= selection < 5) ==> part_announcement_from_selection_spec(selection) == AudiobookPartAnnouncementMode::Silent,
{
    match value {
        AudiobookPartAnnouncementMode::Silent => {},
        AudiobookPartAnnouncementMode::Title => {},
        AudiobookPartAnnouncementMode::TitlePartNumber => {},
        AudiobookPartAnnouncementMode::FileName => {},
        AudiobookPartAnnouncementMode::FileNamePartNumber => {},
    }
}

/// The labels of the interface language list, top to bottom, as translation keys.
pub open spec fn language_entry_keys() -> Seq<Seq<char>> {
    seq!["options.lang.it"@, "options.lang.en"@, "options.lang.es"@, "options.lang.pt"@, "options.lang.pt_br"@, "options.lang.sv"@, "options.lang.vi"@, "options.lang.cs"@, "options.lang.pl"@, "options.lang.fr"@, "options.lang.sr"@, "options.lang.uk"@, "options.lang.lt"@, "options.lang.ru"@, "options.lang.zh"@, "options.lang.hi"@, "options.lang.de"@]
}

/// The translation key of the label that names `language`.
pub open spec fn language_key(language: Language) -> Seq<char> {
    match language {
        Language::Italian => "options.lang.it"@,
        Language::English => "options.lang.en"@,
        Language::Spanish => "options.lang.es"@,
        Language::Portuguese => "options.lang.pt"@,
        Language::PortugueseBrazilian => "options.lang.pt_br"@,
        Language::Swedish => "options.lang.sv"@,
        Language::Vietnamese => "options.lang.vi"@,
        Language::Czech => "options.lang.cs"@,
        Language::Polish => "options.lang.pl"@,
        Language::French => "options.lang.fr"@,
        Language::Serbian => "options.lang.sr"@,
        Language::Ukrainian => "options.lang.uk"@,
        Language::Lithuanian => "options.lang.lt"@,
        Language::Russian => "options.lang.ru"@,
        Language::Chinese => "options.lang.zh"@,
        Language::Hindi => "options.lang.hi"@,
        Language::German => "options.lang.de"@,
    }
}

/// The language list shows each language at the entry labelled with its
/// name, and each entry is the language its label names; there is no other
/// entry.
pub proof fn lemma_language_entries_match(language: Language, index: int)
    ensures
        language_index_spec(language) < 17,
        language_entry_keys()[language_index_spec(language) as int] == language_key(language),
        0 <= index < 17 ==> (language_at_spec(index) matches Some(l) && language_key(l) == language_entry_keys()[index]),
        !(0 <= index < 17) ==> language_at_spec(index) is None,
{
    match language {
        Language::Italian => {},
        Language::English => {},
        Language::Spanish => {},
        Language::Portuguese => {},
        Language::PortugueseBrazilian => {},
        Language::Swedish => {},
        Language::Vietnamese => {},
        Language::Czech => {},
        Language::Polish => {},
        Language::French => {},
        Language::Serbian => {},
        Language::Ukrainian => {},
        Language::Lithuanian => {},
        Language::Russian => {},
        Language::Chinese => {},
        Language::Hindi => {},
        Language::German => {},
    }
}

/// The labels of the engine lists, top to bottom: translation keys, except
/// SAPI 4, whose label is that name itself.
pub open spec fn engine_entry_labels() -> Seq<Seq<char>> {
    seq!["options.engine.edge"@, "options.engine.sapi5"@, "SAPI 4"@, "options.engine.google"@]
}

/// The label (its translation key, or the name itself for SAPI 4) that names `engine`.
pub open spec fn engine_label(engine: TtsEngine) -> Seq<char> {
    match engine {
        TtsEngine::Edge => "options.engine.edge"@,
        TtsEngine::Sapi5 => "options.engine.sapi5"@,
        TtsEngine::Sapi4 => "SAPI 4"@,
        TtsEngine::Google => "options.engine.google"@,
    }
}

/// The engine lists show each engine at the entry labelled with its name,
/// and each entry chooses the engine its label names. With no entry of the
/// four chosen, applying keeps `fallback`; the voice lists show the Edge
/// voices for an unknown entry and `fallback` for no selection.
pub proof fn lemma_engine_entries_match(engine: TtsEngine, selection: isize, fallback: TtsEngine)
    ensures
        0 <= engine_position_spec(engine) < 4,
        engine_entry_labels()[engine_position_spec(engine) as int] == engine_label(engine),
        0 <= selection < 4 ==> engine_label(selected_engine_spec(selection, fallback)) == engine_entry_labels()[selection as int],
        0 <= selection < 4 ==> listed_engine_spec(selection, fallback) == selected_engine_spec(selection, fallback),
        !(0 <= selection < 4) ==> selected_engine_spec(selection, fallback) == fallback,
        selection < 0 ==> listed_engine_spec(selection, fallback) == fallback,
        selection >= 4 ==> listed_engine_spec(selection, fallback) == TtsEngine::Edge,
{
    match engine {
        TtsEngine::Edge => {},
        TtsEngine::Sapi5 => {},
        TtsEngine::Sapi4 => {},
        TtsEngine::Google => {},
    }
}

/// The code of each language is the end of the translation key of its name,
/// after "options.lang."; Brazilian Portuguese, keyed "pt_br", has the code
/// "pt-BR".
pub proof fn lemma_language_code_names_key(language: Language)
    ensures
        language != Language::PortugueseBrazilian ==> language_key(language) == "options.lang."@
            + language_code_spec(language),
        language == Language::PortugueseBrazilian ==> language_code_spec(language) == "pt-BR"@
            && language_key(language) == "options.lang.pt_br"@,
{
    reveal_strlit("options.lang.");
    reveal_strlit("options.lang.it");
    reveal_strlit("it");
    reveal_strlit("options.lang.en");
    reveal_strlit("en");
    reveal_strlit("options.lang.es");
    reveal_strlit("es");
    reveal_strlit("options.lang.pt");
    reveal_strlit("pt");
    reveal_strlit("options.lang.sv");
    reveal_strlit("sv");
    reveal_strlit("options.lang.vi");
    reveal_strlit("vi");
    reveal_strlit("options.lang.cs");
    reveal_strlit("cs");
    reveal_strlit("options.lang.pl");
    reveal_strlit("pl");
    reveal_strlit("options.lang.fr");
    reveal_strlit("fr");
    reveal_strlit("options.lang.sr");
    reveal_strlit("sr");
    reveal_strlit("options.lang.uk");
    reveal_strlit("uk");
    reveal_strlit("options.lang.lt");
    reveal_strlit("lt");
    reveal_strlit("options.lang.ru");
    reveal_strlit("ru");
    reveal_strlit("options.lang.zh");
    reveal_strlit("zh");
    reveal_strlit("options.lang.hi");
    reveal_strlit("hi");
    reveal_strlit("options.lang.de");
    reveal_strlit("de");
    match language {
        Language::Italian => {
            assert(language_key(language) =~= "options.lang."@ + language_code_spec(language));
        },
        Language::English => {
            assert(language_key(language) =~= "options.lang."@ + language_code_spec(language));
        },
        Language::Spanish => {
            assert(language_key(language) =~= "options.lang."@ + language_code_spec(language));
        },
        Language::Portuguese => {
            assert(language_key(language) =~= "options.lang."@ + language_code_spec(language));
        },
        Language::Swedish => {
            assert(language_key(language) =~= "options.lang."@ + language_code_spec(language));
        },
        Language::Vietnamese => {
            assert(language_key(language) =~= "options.lang."@ + language_code_spec(language));
        },
        Language::Czech => {
            assert(language_key(language) =~= "options.lang."@ + language_code_spec(language));
        },
        Language::Polish => {
            assert(language_key(language) =~= "options.lang."@ + language_code_spec(language));
        },
        Language::French => {
            assert(language_key(language) =~= "options.lang."@ + language_code_spec(language));
        },
        Language::Serbian => {
            assert(language_key(language) =~= "options.lang."@ + language_code_spec(language));
        },
        Language::Ukrainian => {
            assert(language_key(language) =~= "options.lang."@ + language_code_spec(language));
        },
        Language::Lithuanian => {
            assert(language_key(language) =~= "options.lang."@ + language_code_spec(language));
        },
        Language::Russian => {
            assert(language_key(language) =~= "options.lang."@ + language_code_spec(language));
        },
        Language::Chinese => {
            assert(language_key(language) =~= "options.lang."@ + language_code_spec(language));
        },
        Language::Hindi => {
            assert(language_key(language) =~= "options.lang."@ + language_code_spec(language));
        },
        Language::German => {
            assert(language_key(language) =~= "options.lang."@ + language_code_spec(language));
        },
        Language::PortugueseBrazilian => {},
    }
}

/// The labels of the dictionary translation list, top to bottom, as translation keys.
pub open spec fn dictionary_entry_keys() -> Seq<Seq<char>> {
    seq!["options.dictionary_translation.auto"@, "options.dictionary_translation.none"@, "options.lang.it"@, "options.lang.en"@, "options.lang.es"@, "options.lang.pt"@, "options.lang.sv"@, "options.lang.vi"@, "options.lang.cs"@, "options.lang.pl"@, "options.lang.fr"@, "options.lang.uk"@, "options.lang.lt"@, "options.lang.ru"@, "options.lang.zh"@, "options.lang.hi"@, "options.lang.de"@]
}

/// Each language entry of the dictionary translation list stands for the code that ends the
/// translation key of its label, after "options.lang."; the first entries
/// stand for auto and none.
pub proof fn lemma_dictionary_entries_match(i: int)
    ensures
        dictionary_table().len() == 17,
        dictionary_table()[0] == "auto"@,
        dictionary_table()[1] == "none"@,
        2 <= i < 17 ==> dictionary_entry_keys()[i] == "options.lang."@ + dictionary_table()[i],
{
    reveal_strlit("options.lang.");
    reveal_strlit("options.dictionary_translation.auto");
    reveal_strlit("options.dictionary_translation.none");
    reveal_strlit("options.lang.it");
    reveal_strlit("options.lang.en");
    reveal_strlit("options.lang.es");
    reveal_strlit("options.lang.pt");
    reveal_strlit("options.lang.sv");
    reveal_strlit("options.lang.vi");
    reveal_strlit("options.lang.cs");
    reveal_strlit("options.lang.pl");
    reveal_strlit("options.lang.fr");
    reveal_strlit("options.lang.uk");
    reveal_strlit("options.lang.lt");
    reveal_strlit("options.lang.ru");
    reveal_strlit("options.lang.zh");
    reveal_strlit("options.lang.hi");
    reveal_strlit("options.lang.de");
    reveal_strlit("auto");
    reveal_strlit("none");
    reveal_strlit("it");
    reveal_strlit("en");
    reveal_strlit("es");
    reveal_strlit("pt");
    reveal_strlit("sv");
    reveal_strlit("vi");
    reveal_strlit("cs");
    reveal_strlit("pl");
    reveal_strlit("fr");
    reveal_strlit("uk");
    reveal_strlit("lt");
    reveal_strlit("ru");
    reveal_strlit("zh");
    reveal_strlit("hi");
    reveal_strlit("de");
    assert(dictionary_entry_keys()[2] =~= "options.lang."@ + dictionary_table()[2]);
    assert(dictionary_entry_keys()[3] =~= "options.lang."@ + dictionary_table()[3]);
    assert(dictionary_entry_keys()[4] =~= "options.lang."@ + dictionary_table()[4]);
    assert(dictionary_entry_keys()[5] =~= "options.lang."@ + dictionary_table()[5]);
    assert(dictionary_entry_keys()[6] =~= "options.lang."@ + dictionary_table()[6]);
    assert(dictionary_entry_keys()[7] =~= "options.lang."@ + dictionary_table()[7]);
    assert(dictionary_entry_keys()[8] =~= "options.lang."@ + dictionary_table()[8]);
    assert(dictionary_entry_keys()[9] =~= "options.lang."@ + dictionary_table()[9]);
    assert(dictionary_entry_keys()[10] =~= "options.lang."@ + dictionary_table()[10]);
    assert(dictionary_entry_keys()[11] =~= "options.lang."@ + dictionary_table()[11]);
    assert(dictionary_entry_keys()[12] =~= "options.lang."@ + dictionary_table()[12]);
    assert(dictionary_entry_keys()[13] =~= "options.lang."@ + dictionary_table()[13]);
    assert(dictionary_entry_keys()[14] =~= "options.lang."@ + dictionary_table()[14]);
    assert(dictionary_entry_keys()[15] =~= "options.lang."@ + dictionary_table()[15]);
    assert(dictionary_entry_keys()[16] =~= "options.lang."@ + dictionary_table()[16]);
}

/// The labels of the Wikipedia language list, top to bottom, as translation keys.
pub open spec fn wikipedia_entry_keys() -> Seq<Seq<char>> {
    seq!["options.wikipedia_language.auto"@, "options.lang.it"@, "options.lang.en"@, "options.lang.es"@, "options.lang.pt"@, "options.lang.sv"@, "options.lang.vi"@, "options.lang.cs"@, "options.lang.pl"@, "options.lang.fr"@, "options.lang.uk"@, "options.lang.lt"@, "options.lang.ru"@, "options.lang.zh"@, "options.lang.hi"@, "options.lang.de"@]
}

/// Each language entry of the Wikipedia language list stands for the code that ends the
/// translation key of its label, after "options.lang."; the first entries
/// stand for auto.
pub proof fn lemma_wikipedia_entries_match(i: int)
    ensures
        wikipedia_table().len() == 16,
        wikipedia_table()[0] == "auto"@,
        1 <= i < 16 ==> wikipedia_entry_keys()[i] == "options.lang."@ + wikipedia_table()[i],
{
    reveal_strlit("options.lang.");
    reveal_strlit("options.wikipedia_language.auto");
    reveal_strlit("options.lang.it");
    reveal_strlit("options.lang.en");
    reveal_strlit("options.lang.es");
    reveal_strlit("options.lang.pt");
    reveal_strlit("options.lang.sv");
    reveal_strlit("options.lang.vi");
    reveal_strlit("options.lang.cs");
    reveal_strlit("options.lang.pl");
    reveal_strlit("options.lang.fr");
    reveal_strlit("options.lang.uk");
    reveal_strlit("options.lang.lt");
    reveal_strlit("options.lang.ru");
    reveal_strlit("options.lang.zh");
    reveal_strlit("options.lang.hi");
    reveal_strlit("options.lang.de");
    reveal_strlit("auto");
    reveal_strlit("it");
    reveal_strlit("en");
    reveal_strlit("es");
    reveal_strlit("pt");
    reveal_strlit("sv");
    reveal_strlit("vi");
    reveal_strlit("cs");
    reveal_strlit("pl");
    reveal_strlit("fr");
    reveal_strlit("uk");
    reveal_strlit("lt");
    reveal_strlit("ru");
    reveal_strlit("zh");
    reveal_strlit("hi");
    reveal_strlit("de");
    assert(wikipedia_entry_keys()[1] =~= "options.lang."@ + wikipedia_table()[1]);
    assert(wikipedia_entry_keys()[2] =~= "options.lang."@ + wikipedia_table()[2]);
    assert(wikipedia_entry_keys()[3] =~= "options.lang."@ + wikipedia_table()[3]);
    assert(wikipedia_entry_keys()[4] =~= "options.lang."@ + wikipedia_table()[4]);
    assert(wikipedia_entry_keys()[5] =~= "options.lang."@ + wikipedia_table()[5]);
    assert(wikipedia_entry_keys()[6] =~= "options.lang."@ + wikipedia_table()[6]);
    assert(wikipedia_entry_keys()[7] =~= "options.lang."@ + wikipedia_table()[7]);
    assert(wikipedia_entry_keys()[8] =~= "options.lang."@ + wikipedia_table()[8]);
    assert(wikipedia_entry_keys()[9] =~= "options.lang."@ + wikipedia_table()[9]);
    assert(wikipedia_entry_keys()[10] =~= "options.lang."@ + wikipedia_table()[10]);
    assert(wikipedia_entry_keys()[11] =~= "options.lang."@ + wikipedia_table()[11]);
    assert(wikipedia_entry_keys()[12] =~= "options.lang."@ + wikipedia_table()[12]);
    assert(wikipedia_entry_keys()[13] =~= "options.lang."@ + wikipedia_table()[13]);
    assert(wikipedia_entry_keys()[14] =~= "options.lang."@ + wikipedia_table()[14]);
    assert(wikipedia_entry_keys()[15] =~= "options.lang."@ + wikipedia_table()[15]);
}

} // verus!
