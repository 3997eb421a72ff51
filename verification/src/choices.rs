//! The choices of the dialog's lists: which entry shows a setting when the
//! dialog opens, and which setting an entry stands for when it is applied.

use vstd::prelude::*;

use crate::model::{
    Language, AudiobookPartAnnouncementMode, AudiobookSplit, AudiobookPartNamingMode, IndentationMode, ListDateDisplayMode,
    ListTimeDisplayMode, ModifiedMarkerPosition, OpenBehavior, PodcastDeleteConfirmMode, RssDeleteConfirmMode,
    RssPodcastUnreadLabelPosition, RssQuickCopyMode, SpellcheckLanguageMode, SubtitleReadMode,
};
use crate::languages::{
    language_at_spec, language_code_spec, language_index_spec, language_of_code_spec, lemma_language_code_round_trip,
    lemma_language_index_round_trip, sonarpad_language_code, sonarpad_language_from_index, sonarpad_language_index,
    whisper_audio_language_from_code,
};
use crate::order::string_views;
use crate::text::{
    contains_spec, contains_str, decimal_spec, lemma_parse_decimal, lemma_parse_signed_decimal, lower_seq,
    parse_i32_spec, parse_trimmed_i32, parse_trimmed_u32, parse_u32_spec, signed_decimal_spec, str_equals,
    to_ascii_lowercase, trim, trim_spec,
};

verus! {

/// The entry of the list of the modified-marker position that shows `value`.
pub open spec fn marker_position_spec(value: ModifiedMarkerPosition) -> usize {
    match value {
        ModifiedMarkerPosition::End => 0,
        ModifiedMarkerPosition::Beginning => 1,
    }
}

/// The entry of the list of the modified-marker position that shows `value`.
pub fn marker_position(value: ModifiedMarkerPosition) -> (position: usize)
    ensures
        position == marker_position_spec(value),
{
    match value {
        ModifiedMarkerPosition::End => 0,
        ModifiedMarkerPosition::Beginning => 1,
    }
}

/// The value of the modified-marker position chosen by the list's selection `selection`
/// (End for any entry not listed, or no selection).
pub open spec fn marker_from_selection_spec(selection: isize) -> ModifiedMarkerPosition {
    if selection == 1 {
        ModifiedMarkerPosition::Beginning
    } else {
        ModifiedMarkerPosition::End
    }
}

/// The value of the modified-marker position chosen by the list's selection.
pub fn marker_from_selection(selection: isize) -> (value: ModifiedMarkerPosition)
    ensures
        value == marker_from_selection_spec(selection),
{
    if selection == 1 {
        ModifiedMarkerPosition::Beginning
    } else {
        ModifiedMarkerPosition::End
    }
}

/// The entry of the list of the open behaviour that shows `value`.
pub open spec fn open_behavior_position_spec(value: OpenBehavior) -> usize {
    match value {
        OpenBehavior::NewTab => 0,
        OpenBehavior::NewWindow => 1,
    }
}

/// The entry of the list of the open behaviour that shows `value`.
pub fn open_behavior_position(value: OpenBehavior) -> (position: usize)
    ensures
        position == open_behavior_position_spec(value),
{
    match value {
        OpenBehavior::NewTab => 0,
        OpenBehavior::NewWindow => 1,
    }
}

/// The value of the open behaviour chosen by the list's selection `selection`
/// (NewTab for any entry not listed, or no selection).
pub open spec fn open_behavior_from_selection_spec(selection: isize) -> OpenBehavior {
    if selection == 1 {
        OpenBehavior::NewWindow
    } else {
        OpenBehavior::NewTab
    }
}

/// The value of the open behaviour chosen by the list's selection.
pub fn open_behavior_from_selection(selection: isize) -> (value: OpenBehavior)
    ensures
        value == open_behavior_from_selection_spec(selection),
{
    if selection == 1 {
        OpenBehavior::NewWindow
    } else {
        OpenBehavior::NewTab
    }
}

/// The entry of the list of the indentation mode that shows `value`.
pub open spec fn indentation_mode_position_spec(value: IndentationMode) -> usize {
    match value {
        IndentationMode::Default => 0,
        IndentationMode::Tabs => 1,
        IndentationMode::Spaces => 2,
    }
}

/// The entry of the list of the indentation mode that shows `value`.
pub fn indentation_mode_position(value: IndentationMode) -> (position: usize)
    ensures
        position == indentation_mode_position_spec(value),
{
    match value {
        IndentationMode::Default => 0,
        IndentationMode::Tabs => 1,
        IndentationMode::Spaces => 2,
    }
}

/// The value of the indentation mode chosen by the list's selection `selection`
/// (Default for any entry not listed, or no selection).
pub open spec fn indentation_mode_from_selection_spec(selection: isize) -> IndentationMode {
    if selection == 1 {
        IndentationMode::Tabs
    } else if selection == 2 {
        IndentationMode::Spaces
    } else {
        IndentationMode::Default
    }
}

/// The value of the indentation mode chosen by the list's selection.
pub fn indentation_mode_from_selection(selection: isize) -> (value: IndentationMode)
    ensures
        value == indentation_mode_from_selection_spec(selection),
{
    if selection == 1 {
        IndentationMode::Tabs
    } else if selection == 2 {
        IndentationMode::Spaces
    } else {
        IndentationMode::Default
    }
}

/// The entry of the list of the subtitle reading mode that shows `value`.
pub open spec fn subtitle_mode_position_spec(value: SubtitleReadMode) -> usize {
    match value {
        SubtitleReadMode::Off => 0,
        SubtitleReadMode::Nvda => 1,
        SubtitleReadMode::User => 2,
        SubtitleReadMode::Record => 3,
    }
}

/// The entry of the list of the subtitle reading mode that shows `value`.
pub fn subtitle_mode_position(value: SubtitleReadMode) -> (position: usize)
    ensures
        position == subtitle_mode_position_spec(value),
{
    match value {
        SubtitleReadMode::Off => 0,
        SubtitleReadMode::Nvda => 1,
        SubtitleReadMode::User => 2,
        SubtitleReadMode::Record => 3,
    }
}

/// The value of the subtitle reading mode chosen by the list's selection `selection`
/// (Off for any entry not listed, or no selection).
pub open spec fn subtitle_mode_from_selection_spec(selection: isize) -> SubtitleReadMode {
    if selection == 1 {
        SubtitleReadMode::Nvda
    } else if selection == 2 {
        SubtitleReadMode::User
    } else if selection == 3 {
        SubtitleReadMode::Record
    } else {
        SubtitleReadMode::Off
    }
}

/// The value of the subtitle reading mode chosen by the list's selection.
pub fn subtitle_mode_from_selection(selection: isize) -> (value: SubtitleReadMode)
    ensures
        value == subtitle_mode_from_selection_spec(selection),
{
    if selection == 1 {
        SubtitleReadMode::Nvda
    } else if selection == 2 {
        SubtitleReadMode::User
    } else if selection == 3 {
        SubtitleReadMode::Record
    } else {
        SubtitleReadMode::Off
    }
}

/// The entry of the list of the RSS delete confirmation that shows `value`.
pub open spec fn rss_confirm_mode_position_spec(value: RssDeleteConfirmMode) -> usize {
    match value {
        RssDeleteConfirmMode::Feed => 0,
        RssDeleteConfirmMode::Article => 1,
        RssDeleteConfirmMode::Both => 2,
        RssDeleteConfirmMode::Never => 3,
    }
}

/// The entry of the list of the RSS delete confirmation that shows `value`.
pub fn rss_confirm_mode_position(value: RssDeleteConfirmMode) -> (position: usize)
    ensures
        position == rss_confirm_mode_position_spec(value),
{
    match value {
        RssDeleteConfirmMode::Feed => 0,
        RssDeleteConfirmMode::Article => 1,
        RssDeleteConfirmMode::Both => 2,
        RssDeleteConfirmMode::Never => 3,
    }
}

/// The value of the RSS delete confirmation chosen by the list's selection `selection`
/// (Both for any entry not listed, or no selection).
pub open spec fn rss_confirm_mode_from_selection_spec(selection: isize) -> RssDeleteConfirmMode {
    if selection == 0 {
        RssDeleteConfirmMode::Feed
    } else if selection == 1 {
        RssDeleteConfirmMode::Article
    } else if selection == 3 {
        RssDeleteConfirmMode::Never
    } else {
        RssDeleteConfirmMode::Both
    }
}

/// The value of the RSS delete confirmation chosen by the list's selection.
pub fn rss_confirm_mode_from_selection(selection: isize) -> (value: RssDeleteConfirmMode)
    ensures
        value == rss_confirm_mode_from_selection_spec(selection),
{
    if selection == 0 {
        RssDeleteConfirmMode::Feed
    } else if selection == 1 {
        RssDeleteConfirmMode::Article
    } else if selection == 3 {
        RssDeleteConfirmMode::Never
    } else {
        RssDeleteConfirmMode::Both
    }
}

/// The entry of the list of the podcast delete confirmation that shows `value`.
pub open spec fn podcast_confirm_mode_position_spec(value: PodcastDeleteConfirmMode) -> usize {
    match value {
        PodcastDeleteConfirmMode::Podcast => 0,
        PodcastDeleteConfirmMode::Episode => 1,
        PodcastDeleteConfirmMode::Both => 2,
        PodcastDeleteConfirmMode::Never => 3,
    }
}

/// The entry of the list of the podcast delete confirmation that shows `value`.
pub fn podcast_confirm_mode_position(value: PodcastDeleteConfirmMode) -> (position: usize)
    ensures
        position == podcast_confirm_mode_position_spec(value),
{
    match value {
        PodcastDeleteConfirmMode::Podcast => 0,
        PodcastDeleteConfirmMode::Episode => 1,
        PodcastDeleteConfirmMode::Both => 2,
        PodcastDeleteConfirmMode::Never => 3,
    }
}

/// The value of the podcast delete confirmation chosen by the list's selection `selection`
/// (Both for any entry not listed, or no selection).
pub open spec fn podcast_confirm_mode_from_selection_spec(selection: isize) -> PodcastDeleteConfirmMode {
    if selection == 0 {
        PodcastDeleteConfirmMode::Podcast
    } else if selection == 1 {
        PodcastDeleteConfirmMode::Episode
    } else if selection == 3 {
        PodcastDeleteConfirmMode::Never
    } else {
        PodcastDeleteConfirmMode::Both
    }
}

/// The value of the podcast delete confirmation chosen by the list's selection.
pub fn podcast_confirm_mode_from_selection(selection: isize) -> (value: PodcastDeleteConfirmMode)
    ensures
        value == podcast_confirm_mode_from_selection_spec(selection),
{
    if selection == 0 {
        PodcastDeleteConfirmMode::Podcast
    } else if selection == 1 {
        PodcastDeleteConfirmMode::Episode
    } else if selection == 3 {
        PodcastDeleteConfirmMode::Never
    } else {
        PodcastDeleteConfirmMode::Both
    }
}

/// The entry of the list of the RSS quick-copy mode that shows `value`.
pub open spec fn quick_copy_mode_position_spec(value: RssQuickCopyMode) -> usize {
    match value {
        RssQuickCopyMode::Title => 0,
        RssQuickCopyMode::Url => 1,
        RssQuickCopyMode::Content => 2,
        RssQuickCopyMode::All => 3,
    }
}

/// The entry of the list of the RSS quick-copy mode that shows `value`.
pub fn quick_copy_mode_position(value: RssQuickCopyMode) -> (position: usize)
    ensures
        position == quick_copy_mode_position_spec(value),
{
    match value {
        RssQuickCopyMode::Title => 0,
        RssQuickCopyMode::Url => 1,
        RssQuickCopyMode::Content => 2,
        RssQuickCopyMode::All => 3,
    }
}

/// The value of the RSS quick-copy mode chosen by the list's selection `selection`
/// (Title for any entry not listed, or no selection).
pub open spec fn quick_copy_mode_from_selection_spec(selection: isize) -> RssQuickCopyMode {
    if selection == 1 {
        RssQuickCopyMode::Url
    } else if selection == 2 {
        RssQuickCopyMode::Content
    } else if selection == 3 {
        RssQuickCopyMode::All
    } else {
        RssQuickCopyMode::Title
    }
}

/// The value of the RSS quick-copy mode chosen by the list's selection.
pub fn quick_copy_mode_from_selection(selection: isize) -> (value: RssQuickCopyMode)
    ensures
        value == quick_copy_mode_from_selection_spec(selection),
{
    if selection == 1 {
        RssQuickCopyMode::Url
    } else if selection == 2 {
        RssQuickCopyMode::Content
    } else if selection == 3 {
        RssQuickCopyMode::All
    } else {
        RssQuickCopyMode::Title
    }
}

/// The entry of the list of the unread-label position that shows `value`.
pub open spec fn unread_label_position_spec(value: RssPodcastUnreadLabelPosition) -> usize {
    match value {
        RssPodcastUnreadLabelPosition::Before => 0,
        RssPodcastUnreadLabelPosition::After => 1,
    }
}

/// The entry of the list of the unread-label position that shows `value`.
pub fn unread_label_position(value: RssPodcastUnreadLabelPosition) -> (position: usize)
    ensures
        position == unread_label_position_spec(value),
{
    match value {
        RssPodcastUnreadLabelPosition::Before => 0,
        RssPodcastUnreadLabelPosition::After => 1,
    }
}

/// The value of the unread-label position chosen by the list's selection `selection`
/// (Before for any entry not listed, or no selection).
pub open spec fn unread_label_from_selection_spec(selection: isize) -> RssPodcastUnreadLabelPosition {
    if selection == 1 {
        RssPodcastUnreadLabelPosition::After
    } else {
        RssPodcastUnreadLabelPosition::Before
    }
}

/// The value of the unread-label position chosen by the list's selection.
pub fn unread_label_from_selection(selection: isize) -> (value: RssPodcastUnreadLabelPosition)
    ensures
        value == unread_label_from_selection_spec(selection),
{
    if selection == 1 {
        RssPodcastUnreadLabelPosition::After
    } else {
        RssPodcastUnreadLabelPosition::Before
    }
}

/// The entry of the list of the date display that shows `value`.
pub open spec fn date_display_position_spec(value: ListDateDisplayMode) -> usize {
    match value {
        ListDateDisplayMode::Always => 0,
        ListDateDisplayMode::Never => 1,
    }
}

/// The entry of the list of the date display that shows `value`.
pub fn date_display_position(value: ListDateDisplayMode) -> (position: usize)
    ensures
        position == date_display_position_spec(value),
{
    match value {
        ListDateDisplayMode::Always => 0,
        ListDateDisplayMode::Never => 1,
    }
}

/// The value of the date display chosen by the list's selection `selection`
/// (Always for any entry not listed, or no selection).
pub open spec fn date_display_from_selection_spec(selection: isize) -> ListDateDisplayMode {
    if selection == 1 {
        ListDateDisplayMode::Never
    } else {
        ListDateDisplayMode::Always
    }
}

/// The value of the date display chosen by the list's selection.
pub fn date_display_from_selection(selection: isize) -> (value: ListDateDisplayMode)
    ensures
        value == date_display_from_selection_spec(selection),
{
    if selection == 1 {
        ListDateDisplayMode::Never
    } else {
        ListDateDisplayMode::Always
    }
}

/// The entry of the list of the time display that shows `value`.
pub open spec fn time_display_position_spec(value: ListTimeDisplayMode) -> usize {
    match value {
        ListTimeDisplayMode::Always => 0,
        ListTimeDisplayMode::Never => 1,
        ListTimeDisplayMode::OnlyIfMultipleSameDay => 2,
    }
}

/// The entry of the list of the time display that shows `value`.
pub fn time_display_position(value: ListTimeDisplayMode) -> (position: usize)
    ensures
        position == time_display_position_spec(value),
{
    match value {
        ListTimeDisplayMode::Always => 0,
        ListTimeDisplayMode::Never => 1,
        ListTimeDisplayMode::OnlyIfMultipleSameDay => 2,
    }
}

/// The value of the time display chosen by the list's selection `selection`
/// (Always for any entry not listed, or no selection).
pub open spec fn time_display_from_selection_spec(selection: isize) -> ListTimeDisplayMode {
    if selection == 1 {
        ListTimeDisplayMode::Never
    } else if selection == 2 {
        ListTimeDisplayMode::OnlyIfMultipleSameDay
    } else {
        ListTimeDisplayMode::Always
    }
}

/// The value of the time display chosen by the list's selection.
pub fn time_display_from_selection(selection: isize) -> (value: ListTimeDisplayMode)
    ensures
        value == time_display_from_selection_spec(selection),
{
    if selection == 1 {
        ListTimeDisplayMode::Never
    } else if selection == 2 {
        ListTimeDisplayMode::OnlyIfMultipleSameDay
    } else {
        ListTimeDisplayMode::Always
    }
}

/// The entry of the list of the part naming that shows `value`.
pub open spec fn part_naming_position_spec(value: AudiobookPartNamingMode) -> usize {
    match value {
        AudiobookPartNamingMode::TitleNumber => 0,
        AudiobookPartNamingMode::NumberOnly => 1,
        AudiobookPartNamingMode::NumberTitle => 2,
    }
}

/// The entry of the list of the part naming that shows `value`.
pub fn part_naming_position(value: AudiobookPartNamingMode) -> (position: usize)
    ensures
        position == part_naming_position_spec(value),
{
    match value {
        AudiobookPartNamingMode::TitleNumber => 0,
        AudiobookPartNamingMode::NumberOnly => 1,
        AudiobookPartNamingMode::NumberTitle => 2,
    }
}

/// The value of the part naming chosen by the list's selection `selection`
/// (TitleNumber for any entry not listed, or no selection).
pub open spec fn part_naming_from_selection_spec(selection: isize) -> AudiobookPartNamingMode {
    if selection == 1 {
        AudiobookPartNamingMode::NumberOnly
    } else if selection == 2 {
        AudiobookPartNamingMode::NumberTitle
    } else {
        AudiobookPartNamingMode::TitleNumber
    }
}

/// The value of the part naming chosen by the list's selection.
pub fn part_naming_from_selection(selection: isize) -> (value: AudiobookPartNamingMode)
    ensures
        value == part_naming_from_selection_spec(selection),
{
    if selection == 1 {
        AudiobookPartNamingMode::NumberOnly
    } else if selection == 2 {
        AudiobookPartNamingMode::NumberTitle
    } else {
        AudiobookPartNamingMode::TitleNumber
    }
}

/// The entry of the list of the part announcement that shows `value`.
pub open spec fn part_announcement_position_spec(value: AudiobookPartAnnouncementMode) -> usize {
    match value {
        AudiobookPartAnnouncementMode::Silent => 0,
        AudiobookPartAnnouncementMode::Title => 1,
        AudiobookPartAnnouncementMode::TitlePartNumber => 2,
        AudiobookPartAnnouncementMode::FileName => 3,
        AudiobookPartAnnouncementMode::FileNamePartNumber => 4,
    }
}

/// The entry of the list of the part announcement that shows `value`.
pub fn part_announcement_position(value: AudiobookPartAnnouncementMode) -> (position: usize)
    ensures
        position == part_announcement_position_spec(value),
{
    match value {
        AudiobookPartAnnouncementMode::Silent => 0,
        AudiobookPartAnnouncementMode::Title => 1,
        AudiobookPartAnnouncementMode::TitlePartNumber => 2,
        AudiobookPartAnnouncementMode::FileName => 3,
        AudiobookPartAnnouncementMode::FileNamePartNumber => 4,
    }
}

/// The value of the part announcement chosen by the list's selection `selection`
/// (Silent for any entry not listed, or no selection).
pub open spec fn part_announcement_from_selection_spec(selection: isize) -> AudiobookPartAnnouncementMode {
    if selection == 1 {
        AudiobookPartAnnouncementMode::Title
    } else if selection == 2 {
        AudiobookPartAnnouncementMode::TitlePartNumber
    } else if selection == 3 {
        AudiobookPartAnnouncementMode::FileName
    } else if selection == 4 {
        AudiobookPartAnnouncementMode::FileNamePartNumber
    } else {
        AudiobookPartAnnouncementMode::Silent
    }
}

/// The value of the part announcement chosen by the list's selection.
pub fn part_announcement_from_selection(selection: isize) -> (value: AudiobookPartAnnouncementMode)
    ensures
        value == part_announcement_from_selection_spec(selection),
{
    if selection == 1 {
        AudiobookPartAnnouncementMode::Title
    } else if selection == 2 {
        AudiobookPartAnnouncementMode::TitlePartNumber
    } else if selection == 3 {
        AudiobookPartAnnouncementMode::FileName
    } else if selection == 4 {
        AudiobookPartAnnouncementMode::FileNamePartNumber
    } else {
        AudiobookPartAnnouncementMode::Silent
    }
}

/// Selecting the entry that the dialog shows for a value gives back that
/// value, for every list of fixed choices.
pub proof fn lemma_fixed_choices_round_trip(
    marker: ModifiedMarkerPosition,
    open_behavior: OpenBehavior,
    indentation_mode: IndentationMode,
    subtitle_mode: SubtitleReadMode,
    rss_confirm_mode: RssDeleteConfirmMode,
    podcast_confirm_mode: PodcastDeleteConfirmMode,
    quick_copy_mode: RssQuickCopyMode,
    unread_label: RssPodcastUnreadLabelPosition,
    date_display: ListDateDisplayMode,
    time_display: ListTimeDisplayMode,
    part_naming: AudiobookPartNamingMode,
    part_announcement: AudiobookPartAnnouncementMode,
)
    ensures
        marker_from_selection_spec(marker_position_spec(marker) as isize) == marker,
        open_behavior_from_selection_spec(open_behavior_position_spec(open_behavior) as isize) == open_behavior,
        indentation_mode_from_selection_spec(indentation_mode_position_spec(indentation_mode) as isize) == indentation_mode,
        subtitle_mode_from_selection_spec(subtitle_mode_position_spec(subtitle_mode) as isize) == subtitle_mode,
        rss_confirm_mode_from_selection_spec(rss_confirm_mode_position_spec(rss_confirm_mode) as isize) == rss_confirm_mode,
        podcast_confirm_mode_from_selection_spec(podcast_confirm_mode_position_spec(podcast_confirm_mode) as isize) == podcast_confirm_mode,
        quick_copy_mode_from_selection_spec(quick_copy_mode_position_spec(quick_copy_mode) as isize) == quick_copy_mode,
        unread_label_from_selection_spec(unread_label_position_spec(unread_label) as isize) == unread_label,
        date_display_from_selection_spec(date_display_position_spec(date_display) as isize) == date_display,
        time_display_from_selection_spec(time_display_position_spec(time_display) as isize) == time_display,
        part_naming_from_selection_spec(part_naming_position_spec(part_naming) as isize) == part_naming,
        part_announcement_from_selection_spec(part_announcement_position_spec(part_announcement) as isize) == part_announcement,
{
}

/// The characters of each string of a table.
pub open spec fn table_views(t: Seq<&'static str>) -> Seq<Seq<char>> {
    t.map_values(|x: &'static str| x@)
}

/// The last position of `x` in `t`, if any.
pub open spec fn last_index_spec(t: Seq<Seq<char>>, x: Seq<char>) -> Option<int>
    decreases t.len(),
{
    if t.len() == 0 {
        None
    } else if t.last() == x {
        Some(t.len() - 1)
    } else {
        last_index_spec(t.drop_last(), x)
    }
}

/// A position found by `last_index_spec` holds `x`, and a value of the
/// table is always found.
pub proof fn lemma_last_index(t: Seq<Seq<char>>, x: Seq<char>)
    ensures
        last_index_spec(t, x) matches Some(i) ==> 0 <= i < t.len() && t[i] == x,
        t.contains(x) ==> last_index_spec(t, x) is Some,
    decreases t.len(),
{
    if t.len() > 0 {
        lemma_last_index(t.drop_last(), x);
        if t.contains(x) && t.last() != x {
            let k = choose|k: int| 0 <= k < t.len() && t[k] == x;
            assert(t.drop_last()[k] == x);
        }
    }
}

/// The last position of `x` in `table`, if any.
fn last_position(table: &Vec<&'static str>, x: &str) -> (r: Option<usize>)
    ensures
        match r {
            Some(i) => last_index_spec(table_views(table@), x@) == Some(i as int),
            None => last_index_spec(table_views(table@), x@) is None,
        },
{
    let ghost views = table_views(table@);
    let mut found: Option<usize> = None;
    let mut i: usize = 0;
    proof {
        assert(views.take(0) =~= Seq::<Seq<char>>::empty());
    }
    while i < table.len()
        invariant
            i <= table@.len(),
            views == table_views(table@),
            match found {
                Some(k) => last_index_spec(views.take(i as int), x@) == Some(k as int),
                None => last_index_spec(views.take(i as int), x@) is None,
            },
        decreases table@.len() - i,
    {
        proof {
            assert(views.take(i + 1).drop_last() =~= views.take(i as int));
            assert(views.take(i + 1).last() == table@[i as int]@);
        }
        if str_equals(table[i], x) {
            found = Some(i);
        }
        i += 1;
    }
    proof {
        assert(views.take(table@.len() as int) =~= views);
    }
    found
}

/// The spell-checker languages of the list, "follow" first.
pub open spec fn spellcheck_table() -> Seq<Seq<char>> {
    seq![
        "follow"@, "en-US"@, "en-GB"@, "it-IT"@, "es-ES"@, "pt-BR"@, "fr-FR"@, "de-DE"@, "pl-PL"@, "ru-RU"@,
        "hi-IN"@,
    ]
}

/// The spell-checker languages of the list.
fn spellcheck_codes() -> (t: Vec<&'static str>)
    ensures
        table_views(t@) == spellcheck_table(),
{
    let t = vec![
        "follow", "en-US", "en-GB", "it-IT", "es-ES", "pt-BR", "fr-FR", "de-DE", "pl-PL", "ru-RU", "hi-IN",
    ];
    proof {
        assert(table_views(t@) =~= spellcheck_table());
    }
    t
}

/// The entry of the spell-checker language list for the mode and language:
/// "follow" (the first entry) when following the editor, else the fixed
/// language; the first entry when the list does not have it.
pub open spec fn spellcheck_position_spec(mode: SpellcheckLanguageMode, fixed: Seq<char>) -> usize {
    if mode == SpellcheckLanguageMode::FollowEditorLanguage {
        0
    } else {
        match last_index_spec(spellcheck_table(), fixed) {
            Some(i) => i as usize,
            None => 0,
        }
    }
}

/// The entry of the spell-checker language list to select.
pub fn spellcheck_position(mode: SpellcheckLanguageMode, fixed: &str) -> (position: usize)
    ensures
        position == spellcheck_position_spec(mode, fixed@),
{
    if mode == SpellcheckLanguageMode::FollowEditorLanguage {
        return 0;
    }
    let table = spellcheck_codes();
    match last_position(&table, fixed) {
        Some(i) => {
            proof {
                lemma_last_index(table_views(table@), fixed@);
            }
            i
        },
        None => 0,
    }
}

/// The spell-checker mode and fixed language chosen by the list's selection:
/// the first entry follows the editor and keeps the fixed language; any other
/// entry fixes its language ("en-US" for an entry not listed or no selection).
pub open spec fn spellcheck_from_selection_spec(selection: isize, fixed: Seq<char>) -> (SpellcheckLanguageMode, Seq<char>) {
    if selection == 0 {
        (SpellcheckLanguageMode::FollowEditorLanguage, fixed)
    } else if 1 <= selection < 11 {
        (SpellcheckLanguageMode::FixedLanguage, spellcheck_table()[selection as int])
    } else {
        (SpellcheckLanguageMode::FixedLanguage, "en-US"@)
    }
}

/// The spell-checker mode and fixed language chosen by the list's selection.
pub fn spellcheck_from_selection(selection: isize, fixed: &str) -> (r: (SpellcheckLanguageMode, String))
    ensures
        (r.0, r.1@) == spellcheck_from_selection_spec(selection, fixed@),
{
    if selection == 0 {
        (SpellcheckLanguageMode::FollowEditorLanguage, fixed.to_owned())
    } else if 1 <= selection && selection < 11 {
        let table = spellcheck_codes();
        proof {
            assert(table_views(table@).len() == 11);
            assert(table_views(table@)[selection as int] == table@[selection as int]@);
        }
        (SpellcheckLanguageMode::FixedLanguage, table[selection as usize].to_owned())
    } else {
        (SpellcheckLanguageMode::FixedLanguage, "en-US".to_owned())
    }
}

/// Selecting the spell-checker entry shown for a setting gives back the
/// setting, when it follows the editor or fixes a listed language.
pub proof fn lemma_spellcheck_round_trip(mode: SpellcheckLanguageMode, fixed: Seq<char>)
    requires
        mode == SpellcheckLanguageMode::FixedLanguage ==> spellcheck_table().contains(fixed) && fixed != "follow"@,
    ensures
        spellcheck_from_selection_spec(spellcheck_position_spec(mode, fixed) as isize, fixed) == (mode, fixed),
{
    reveal_strlit("follow");
    reveal_strlit("en-US");
    reveal_strlit("en-GB");
    reveal_strlit("it-IT");
    reveal_strlit("es-ES");
    reveal_strlit("pt-BR");
    reveal_strlit("fr-FR");
    reveal_strlit("de-DE");
    reveal_strlit("pl-PL");
    reveal_strlit("ru-RU");
    reveal_strlit("hi-IN");
    let t = spellcheck_table();
    assert(t[0] == "follow"@);
    lemma_last_index(t, fixed);
}

/// The translation languages of the dictionary list, as the dialog shows
/// them ("auto" and "none" first).
pub open spec fn dictionary_table() -> Seq<Seq<char>> {
    seq![
        "auto"@, "none"@, "it"@, "en"@, "es"@, "pt"@, "sv"@, "vi"@, "cs"@, "pl"@, "fr"@, "uk"@, "lt"@, "ru"@,
        "zh"@, "hi"@, "de"@,
    ]
}

/// The translation languages of the dictionary list.
fn dictionary_codes() -> (t: Vec<&'static str>)
    ensures
        table_views(t@) == dictionary_table(),
{
    let t = vec![
        "auto", "none", "it", "en", "es", "pt", "sv", "vi", "cs", "pl", "fr", "uk", "lt", "ru", "zh", "hi", "de",
    ];
    proof {
        assert(table_views(t@) =~= dictionary_table());
    }
    t
}

/// The Wikipedia languages of the list, as the dialog shows them ("auto"
/// first).
pub open spec fn wikipedia_table() -> Seq<Seq<char>> {
    seq![
        "auto"@, "it"@, "en"@, "es"@, "pt"@, "sv"@, "vi"@, "cs"@, "pl"@, "fr"@, "uk"@, "lt"@, "ru"@, "zh"@,
        "hi"@, "de"@,
    ]
}

/// The Wikipedia languages of the list.
fn wikipedia_codes() -> (t: Vec<&'static str>)
    ensures
        table_views(t@) == wikipedia_table(),
{
    let t = vec!["auto", "it", "en", "es", "pt", "sv", "vi", "cs", "pl", "fr", "uk", "lt", "ru", "zh", "hi", "de"];
    proof {
        assert(table_views(t@) =~= wikipedia_table());
    }
    t
}

/// The entry of a language list for the setting `value`: the last entry
/// equal to the setting trimmed and in lower case, or the first entry.
pub open spec fn code_position_spec(table: Seq<Seq<char>>, value: Seq<char>) -> usize {
    match last_index_spec(table, lower_seq(trim_spec(value))) {
        Some(i) => i as usize,
        None => 0,
    }
}

/// The entry of a language list for a setting.
fn code_position(table: &Vec<&'static str>, value: &str) -> (position: usize)
    ensures
        position == code_position_spec(table_views(table@), value@),
{
    let trimmed = trim(value);
    let normalized = to_ascii_lowercase(trimmed.as_str());
    match last_position(table, normalized.as_str()) {
        Some(i) => {
            proof {
                lemma_last_index(table_views(table@), normalized@);
            }
            i
        },
        None => 0,
    }
}

/// The entry of the dictionary translation list to select.
pub fn dictionary_translation_position(value: &str) -> (position: usize)
    ensures
        position == code_position_spec(dictionary_table(), value@),
{
    let table = dictionary_codes();
    code_position(&table, value)
}

/// The entry of the Wikipedia language list to select.
pub fn wikipedia_language_position(value: &str) -> (position: usize)
    ensures
        position == code_position_spec(wikipedia_table(), value@),
{
    let table = wikipedia_codes();
    code_position(&table, value)
}

/// The setting chosen by a language list's selection: the entry among the
/// first `count` entries of the table, "auto" for any other entry or no
/// selection.
pub open spec fn code_from_selection_spec(table: Seq<Seq<char>>, count: int, selection: isize) -> Seq<char> {
    if 0 <= selection < count {
        table[selection as int]
    } else {
        "auto"@
    }
}

/// The dictionary translation language chosen by the list's selection; the
/// last entry, "de", is not among those it gives back.
pub fn dictionary_translation_from_selection(selection: isize) -> (value: String)
    ensures
        value@ == code_from_selection_spec(dictionary_table(), 16, selection),
{
    if 0 <= selection && selection < 16 {
        let table = dictionary_codes();
        proof {
            assert(table_views(table@).len() == 17);
            assert(table_views(table@)[selection as int] == table@[selection as int]@);
        }
        table[selection as usize].to_owned()
    } else {
        "auto".to_owned()
    }
}

/// The Wikipedia language chosen by the list's selection; the last entry,
/// "de", is not among those it gives back.
pub fn wikipedia_language_from_selection(selection: isize) -> (value: String)
    ensures
        value@ == code_from_selection_spec(wikipedia_table(), 15, selection),
{
    if 0 <= selection && selection < 15 {
        let table = wikipedia_codes();
        proof {
            assert(table_views(table@).len() == 16);
            assert(table_views(table@)[selection as int] == table@[selection as int]@);
        }
        table[selection as usize].to_owned()
    } else {
        "auto".to_owned()
    }
}

/// Selecting the entry that a language list shows for a setting gives back
/// the setting, trimmed and in lower case, when the list has it among the
/// entries that the selection gives back.
proof fn lemma_code_round_trip(table: Seq<Seq<char>>, count: int, value: Seq<char>)
    requires
        0 <= count <= table.len() <= 100,
        table.contains(lower_seq(trim_spec(value))),
        forall|i: int| count <= i < table.len() ==> table[i] != lower_seq(trim_spec(value)),
    ensures
        code_from_selection_spec(table, count, code_position_spec(table, value) as isize) == lower_seq(
            trim_spec(value),
        ),
{
    lemma_last_index(table, lower_seq(trim_spec(value)));
}

/// Selecting the dictionary entry shown for a setting gives back the
/// setting (trimmed, in lower case) when it is a listed language other than
/// "de"; "de" comes back as "auto".
pub proof fn lemma_dictionary_translation_round_trip(value: Seq<char>)
    requires
        dictionary_table().contains(lower_seq(trim_spec(value))),
    ensures
        lower_seq(trim_spec(value)) != "de"@ ==> code_from_selection_spec(
            dictionary_table(),
            16,
            code_position_spec(dictionary_table(), value) as isize,
        ) == lower_seq(trim_spec(value)),
        lower_seq(trim_spec(value)) == "de"@ ==> code_from_selection_spec(
            dictionary_table(),
            16,
            code_position_spec(dictionary_table(), value) as isize,
        ) == "auto"@,
{
    let t = dictionary_table();
    let x = lower_seq(trim_spec(value));
    assert(t[16] == "de"@);
    lemma_last_index(t, x);
    if x != "de"@ {
        lemma_code_round_trip(t, 16, value);
    }
}

/// Selecting the Wikipedia entry shown for a setting gives back the setting
/// (trimmed, in lower case) when it is a listed language other than "de";
/// "de" comes back as "auto".
pub proof fn lemma_wikipedia_language_round_trip(value: Seq<char>)
    requires
        wikipedia_table().contains(lower_seq(trim_spec(value))),
    ensures
        lower_seq(trim_spec(value)) != "de"@ ==> code_from_selection_spec(
            wikipedia_table(),
            15,
            code_position_spec(wikipedia_table(), value) as isize,
        ) == lower_seq(trim_spec(value)),
        lower_seq(trim_spec(value)) == "de"@ ==> code_from_selection_spec(
            wikipedia_table(),
            15,
            code_position_spec(wikipedia_table(), value) as isize,
        ) == "auto"@,
{
    let t = wikipedia_table();
    let x = lower_seq(trim_spec(value));
    assert(t[15] == "de"@);
    lemma_last_index(t, x);
    if x != "de"@ {
        lemma_code_round_trip(t, 15, value);
    }
}

/// The speech-recognition models of the list.
pub open spec fn whisper_model_spec(position: int) -> Seq<char> {
    if position == 1 {
        "medium_q5_0"@
    } else if position == 2 {
        "large_v3_turbo_q5_0"@
    } else {
        "small_q5_1"@
    }
}

/// The entry of the speech-recognition model list for the setting: the
/// medium and large models at 1 and 2, anything else at 0 (the small model).
pub open spec fn whisper_model_position_spec(profile: Seq<char>) -> usize {
    if profile == "medium_q5_0"@ {
        1
    } else if profile == "large_v3_turbo_q5_0"@ {
        2
    } else {
        0
    }
}

/// The entry of the speech-recognition model list to select.
pub fn whisper_model_position(profile: &str) -> (position: usize)
    ensures
        position == whisper_model_position_spec(profile@),
{
    if str_equals(profile, "medium_q5_0") {
        1
    } else if str_equals(profile, "large_v3_turbo_q5_0") {
        2
    } else {
        0
    }
}

/// The speech-recognition model chosen by the list's selection.
pub fn whisper_model_from_selection(selection: isize) -> (profile: String)
    ensures
        profile@ == whisper_model_spec(selection as int),
{
    if selection == 1 {
        "medium_q5_0".to_owned()
    } else if selection == 2 {
        "large_v3_turbo_q5_0".to_owned()
    } else {
        "small_q5_1".to_owned()
    }
}

/// Selecting the model entry shown for a listed model gives back the model.
pub proof fn lemma_whisper_model_round_trip(profile: Seq<char>)
    requires
        profile == "small_q5_1"@ || profile == "medium_q5_0"@ || profile == "large_v3_turbo_q5_0"@,
    ensures
        whisper_model_spec(whisper_model_position_spec(profile) as int) == profile,
{
    reveal_strlit("small_q5_1");
    reveal_strlit("medium_q5_0");
    reveal_strlit("large_v3_turbo_q5_0");
}

/// The entry of the prompt-program list for the setting: PowerShell when the
/// program's name (in lower case) contains "powershell", else Codex when it
/// contains "codex", else the command prompt.
pub open spec fn prompt_program_position_spec(program: Seq<char>) -> usize {
    if contains_spec(lower_seq(program), "powershell"@) {
        1
    } else if contains_spec(lower_seq(program), "codex"@) {
        2
    } else {
        0
    }
}

/// The entry of the prompt-program list to select.
pub fn prompt_program_position(program: &str) -> (position: usize)
    ensures
        position == prompt_program_position_spec(program@),
{
    let lower = to_ascii_lowercase(program);
    if contains_str(lower.as_str(), "powershell") {
        1
    } else if contains_str(lower.as_str(), "codex") {
        2
    } else {
        0
    }
}

/// The prompt program chosen by the list's selection.
pub open spec fn prompt_program_spec(selection: int) -> Seq<char> {
    if selection == 1 {
        "powershell.exe"@
    } else if selection == 2 {
        "codex"@
    } else {
        "cmd.exe"@
    }
}

/// The prompt program chosen by the list's selection.
pub fn prompt_program_from_selection(selection: isize) -> (program: String)
    ensures
        program@ == prompt_program_spec(selection as int),
{
    if selection == 1 {
        "powershell.exe".to_owned()
    } else if selection == 2 {
        "codex".to_owned()
    } else {
        "cmd.exe".to_owned()
    }
}

/// The indentation widths of the tab-width and space-width lists.
pub open spec fn indent_width_table() -> Seq<u32> {
    seq![2u32, 4u32, 6u32, 8u32]
}

/// The entry of an indentation-width list for `width`: its position among
/// 2, 4, 6 and 8, or the first entry.
pub open spec fn indent_width_position_spec(width: u32) -> usize {
    if width == 4 {
        1
    } else if width == 6 {
        2
    } else if width == 8 {
        3
    } else {
        0
    }
}

/// The entry of an indentation-width list to select.
pub fn indent_width_position(width: u32) -> (position: usize)
    ensures
        position == indent_width_position_spec(width),
{
    if width == 4 {
        1
    } else if width == 6 {
        2
    } else if width == 8 {
        3
    } else {
        0
    }
}

/// The width chosen by an indentation-width list's selection; `current`
/// when nothing is selected.
pub open spec fn indent_width_from_selection_spec(selection: isize, current: u32) -> u32 {
    if 0 <= selection < 4 {
        indent_width_table()[selection as int]
    } else {
        current
    }
}

/// The width chosen by an indentation-width list's selection.
pub fn indent_width_from_selection(selection: isize, current: u32) -> (width: u32)
    ensures
        width == indent_width_from_selection_spec(selection, current),
{
    if selection == 0 {
        2
    } else if selection == 1 {
        4
    } else if selection == 2 {
        6
    } else if selection == 3 {
        8
    } else {
        current
    }
}

/// The skip lengths, in seconds, of the audiobook skip list.
pub open spec fn skip_table() -> Seq<u32> {
    seq![
        1u32, 2u32, 3u32, 4u32, 5u32, 6u32, 7u32, 8u32, 9u32, 10u32, 15u32, 20u32, 30u32, 45u32, 60u32, 90u32,
        120u32, 180u32, 300u32, 600u32, 900u32, 1800u32, 3600u32, 7200u32,
    ]
}

/// The skip lengths of the list.
fn skip_lengths() -> (t: Vec<u32>)
    ensures
        t@ == skip_table(),
{
    let t: Vec<u32> = vec![
        1, 2, 3, 4, 5, 6, 7, 8, 9, 10, 15, 20, 30, 45, 60, 90, 120, 180, 300, 600, 900, 1800, 3600, 7200,
    ];
    proof {
        assert(t@ =~= skip_table());
    }
    t
}

/// The entry of the skip list to select: the position of `seconds` in the
/// list, or the entry of one minute when the list does not have it.
pub fn skip_position(seconds: u32) -> (position: usize)
    ensures
        position < 24,
        skip_table()[position as int] == (if skip_table().contains(seconds) {
            seconds
        } else {
            60
        }),
{
    let table = skip_lengths();
    let mut i: usize = 0;
    while i < table.len()
        invariant
            i <= table@.len(),
            table@ == skip_table(),
            forall|j: int| 0 <= j < i ==> table@[j] != seconds,
        decreases table@.len() - i,
    {
        if table[i] == seconds {
            return i;
        }
        i += 1;
    }
    proof {
        assert(!skip_table().contains(seconds));
        assert(skip_table()[14] == 60);
    }
    14
}

/// The skip length chosen by the list's selection; `current` when nothing
/// is selected.
pub open spec fn skip_from_selection_spec(selection: isize, current: u32) -> u32 {
    if 0 <= selection < 24 {
        skip_table()[selection as int]
    } else {
        current
    }
}

/// The skip length chosen by the list's selection.
pub fn skip_from_selection(selection: isize, current: u32) -> (seconds: u32)
    ensures
        seconds == skip_from_selection_spec(selection, current),
{
    if 0 <= selection && selection < 24 {
        let table = skip_lengths();
        table[selection as usize]
    } else {
        current
    }
}

/// Selecting the skip entry shown for a listed length gives it back; an
/// unlisted length comes back as one minute.
pub proof fn lemma_skip_round_trip(seconds: u32, position: usize, current: u32)
    requires
        position < 24,
        skip_table()[position as int] == (if skip_table().contains(seconds) {
            seconds
        } else {
            60
        }),
    ensures
        skip_from_selection_spec(position as isize, current) == (if skip_table().contains(seconds) {
            seconds
        } else {
            60
        }),
{
}

/// The entry of a numbered list (1 to `count`) for `value`: `value - 1`,
/// or the first entry when `value` is not listed.
pub open spec fn numbered_position_spec(value: u32, count: u32) -> usize {
    if 1 <= value <= count {
        (value - 1) as usize
    } else {
        0
    }
}

/// The entry of a numbered list (1 to `count`) to select.
pub fn numbered_position(value: u32, count: u32) -> (position: usize)
    ensures
        position == numbered_position_spec(value, count),
{
    if 1 <= value && value <= count {
        (value - 1) as usize
    } else {
        0
    }
}

/// The value chosen by a numbered list's selection, kept between 1 and
/// `count`; `current` when nothing is selected.
pub open spec fn numbered_from_selection_spec(selection: isize, count: u32, current: u32) -> u32 {
    if selection < 0 {
        current
    } else if selection + 1 > count {
        count
    } else {
        (selection + 1) as u32
    }
}

/// The value chosen by a numbered list's selection.
pub fn numbered_from_selection(selection: isize, count: u32, current: u32) -> (value: u32)
    requires
        count >= 1,
    ensures
        value == numbered_from_selection_spec(selection, count, current),
{
    if selection < 0 {
        return current;
    }
    let position = selection as usize;
    if position >= count as usize {
        count
    } else {
        (position + 1) as u32
    }
}

/// Selecting the entry of a numbered list shown for a listed value gives it
/// back.
pub proof fn lemma_numbered_round_trip(value: u32, count: u32, current: u32)
    requires
        1 <= value <= count <= 1000,
    ensures
        numbered_from_selection_spec(numbered_position_spec(value, count) as isize, count, current) == value,
{
}

/// The audiobook split lists: no split, by time, at a marker text, into
/// parts.
pub open spec fn split_position_spec(split: AudiobookSplit) -> usize {
    if split.by_text {
        2
    } else if split.by_time {
        1
    } else if split.parts > 0 {
        3
    } else {
        0
    }
}

/// The entry of the audiobook split list to select: the last of the
/// entries whose condition holds (by time, by text, into parts when neither
/// and there are parts).
pub fn split_position(split: AudiobookSplit) -> (position: usize)
    ensures
        position == split_position_spec(split),
{
    if split.by_text {
        2
    } else if split.by_time {
        1
    } else if split.parts > 0 {
        3
    } else {
        0
    }
}

/// The number of parts the dialog shows: 2 when the book is not split into
/// parts, else the number kept between 1 and 100.
pub open spec fn split_parts_shown_spec(split: AudiobookSplit) -> u32 {
    if split.parts == 0 {
        2
    } else if split.parts > 100 {
        100
    } else {
        split.parts
    }
}

/// The number of parts the dialog shows.
pub fn split_parts_shown(split: AudiobookSplit) -> (parts: u32)
    ensures
        parts == split_parts_shown_spec(split),
{
    if split.parts == 0 {
        2
    } else if split.parts > 100 {
        100
    } else {
        split.parts
    }
}

/// Why a split choice was refused: the number of parts is not a whole
/// number from 1 to 100.
#[derive(Clone, Copy, Debug, PartialEq, Eq, Structural)]
pub enum SplitError {
    InvalidPartsCount,
}

/// The split chosen by the split list's selection and the parts text: by
/// time or by text with no parts; into parts when the trimmed text reads as
/// a number from 1 to 100 (refused otherwise); no split for the first entry;
/// unchanged when nothing is selected.
pub open spec fn split_from_selection_spec(selection: isize, parts_text: Seq<char>, current: AudiobookSplit) -> Result<
    AudiobookSplit,
    SplitError,
> {
    if selection < 0 || selection > 3 {
        Ok(current)
    } else if selection == 1 {
        Ok(AudiobookSplit { by_time: true, by_text: false, parts: 0 })
    } else if selection == 2 {
        Ok(AudiobookSplit { by_time: false, by_text: true, parts: 0 })
    } else if selection == 3 {
        match parse_u32_spec(trim_spec(parts_text)) {
            Some(n) => if 1 <= n <= 100 {
                Ok(AudiobookSplit { by_time: false, by_text: false, parts: n })
            } else {
                Err(SplitError::InvalidPartsCount)
            },
            None => Err(SplitError::InvalidPartsCount),
        }
    } else {
        Ok(AudiobookSplit { by_time: false, by_text: false, parts: 0 })
    }
}

/// The split chosen by the split list's selection and the parts text.
pub fn split_from_selection(selection: isize, parts_text: &str, current: AudiobookSplit) -> (r: Result<
    AudiobookSplit,
    SplitError,
>)
    ensures
        r == split_from_selection_spec(selection, parts_text@, current),
{
    if selection < 0 || selection > 3 {
        Ok(current)
    } else if selection == 1 {
        Ok(AudiobookSplit { by_time: true, by_text: false, parts: 0 })
    } else if selection == 2 {
        Ok(AudiobookSplit { by_time: false, by_text: true, parts: 0 })
    } else if selection == 3 {
        match parse_trimmed_u32(parts_text) {
            Some(n) => if 1 <= n && n <= 100 {
                Ok(AudiobookSplit { by_time: false, by_text: false, parts: n })
            } else {
                Err(SplitError::InvalidPartsCount)
            },
            None => Err(SplitError::InvalidPartsCount),
        }
    } else {
        Ok(AudiobookSplit { by_time: false, by_text: false, parts: 0 })
    }
}

/// A split as the dialog can give it back: by time or by text with no
/// parts and not both, or into 0 to 100 parts.
pub open spec fn split_is_normal(split: AudiobookSplit) -> bool {
    &&& !(split.by_time && split.by_text)
    &&& (split.by_time || split.by_text) ==> split.parts == 0
    &&& split.parts <= 100
}

/// Applying the split entry and the number of parts that the dialog shows
/// for a split gives back the split, for every split the dialog can give.
pub proof fn lemma_split_round_trip(split: AudiobookSplit, current: AudiobookSplit)
    requires
        split_is_normal(split),
    ensures
        split_from_selection_spec(
            split_position_spec(split) as isize,
            decimal_spec(split_parts_shown_spec(split) as nat),
            current,
        ) == Ok::<AudiobookSplit, SplitError>(split),
{
    lemma_parse_decimal(split_parts_shown_spec(split) as nat);
}

/// The first position of `x` in `t`, if any.
pub open spec fn first_index_spec(t: Seq<Seq<char>>, x: Seq<char>) -> Option<int>
    decreases t.len(),
{
    if t.len() == 0 {
        None
    } else if t[0] == x {
        Some(0)
    } else {
        match first_index_spec(t.drop_first(), x) {
            Some(i) => Some(i + 1),
            None => None,
        }
    }
}

/// A position found by `first_index_spec` holds `x`, and a value of the
/// list is always found.
pub proof fn lemma_first_index(t: Seq<Seq<char>>, x: Seq<char>)
    ensures
        first_index_spec(t, x) matches Some(i) ==> 0 <= i < t.len() && t[i] == x,
        t.contains(x) ==> first_index_spec(t, x) is Some,
    decreases t.len(),
{
    if t.len() > 0 {
        lemma_first_index(t.drop_first(), x);
        if t.contains(x) && t[0] != x {
            let k = choose|k: int| 0 <= k < t.len() && t[k] == x;
            assert(t.drop_first()[k - 1] == x);
        }
    }
}

/// The first position of `x` in `list`, if any.
fn first_position(list: &[String], x: &str) -> (r: Option<usize>)
    ensures
        match r {
            Some(i) => first_index_spec(string_views(list@), x@) == Some(i as int),
            None => first_index_spec(string_views(list@), x@) is None,
        },
{
    let ghost views = string_views(list@);
    let mut i: usize = 0;
    proof {
        assert(views.skip(0) =~= views);
    }
    while i < list.len()
        invariant
            i <= list@.len(),
            views == string_views(list@),
            first_index_spec(views, x@) == (match first_index_spec(views.skip(i as int), x@) {
                Some(k) => Some(k + i),
                None => None,
            }),
        decreases list@.len() - i,
    {
        proof {
            assert(views.skip(i as int).drop_first() =~= views.skip(i + 1));
            assert(views.skip(i as int)[0] == list@[i as int]@);
        }
        if str_equals(list[i].as_str(), x) {
            return Some(i);
        }
        i += 1;
    }
    proof {
        assert(views.skip(list@.len() as int) =~= Seq::<Seq<char>>::empty());
    }
    None
}

/// The entry of the podcast-directory country list for `country`: the
/// first country of `codes` equal to it, after the "automatic" entry; the
/// automatic entry when there is none.
pub open spec fn podcast_country_position_spec(codes: Seq<Seq<char>>, country: Seq<char>) -> int {
    match first_index_spec(codes, country) {
        Some(i) => i + 1,
        None => 0,
    }
}

/// The entry of the podcast-directory country list to select.
pub fn podcast_country_position(codes: &[String], country: &str) -> (position: usize)
    requires
        codes@.len() < usize::MAX,
    ensures
        position == podcast_country_position_spec(string_views(codes@), country@),
{
    match first_position(codes, country) {
        Some(i) => {
            proof {
                lemma_first_index(string_views(codes@), country@);
            }
            i + 1
        },
        None => 0,
    }
}

/// The country chosen by the podcast-directory country list's selection:
/// empty for the automatic entry or no selection, else the country of
/// `codes` after it (empty past the end of `codes`).
pub open spec fn podcast_country_from_selection_spec(selection: isize, codes: Seq<Seq<char>>) -> Seq<char> {
    if selection <= 0 || selection - 1 >= codes.len() {
        Seq::empty()
    } else {
        codes[selection - 1]
    }
}

/// The country chosen by the podcast-directory country list's selection.
pub fn podcast_country_from_selection(selection: isize, codes: &[String]) -> (country: String)
    ensures
        country@ == podcast_country_from_selection_spec(selection, string_views(codes@)),
{
    if selection <= 0 {
        return String::new();
    }
    let position = (selection - 1) as usize;
    if position < codes.len() {
        codes[position].clone()
    } else {
        String::new()
    }
}

/// Selecting the country entry shown for a listed country gives it back, and
/// so does the automatic entry for the empty setting.
pub proof fn lemma_podcast_country_round_trip(codes: Seq<Seq<char>>, country: Seq<char>)
    requires
        codes.len() < isize::MAX,
        codes.contains(country) || country.len() == 0,
    ensures
        podcast_country_from_selection_spec(podcast_country_position_spec(codes, country) as isize, codes) == country,
{
    lemma_first_index(codes, country);
    if !codes.contains(country) {
        assert(country =~= Seq::<char>::empty());
    }
}

/// The entry of the microphone list for the device `device`: its first
/// position in `device_ids`, or the first entry.
pub open spec fn device_position_spec(device_ids: Seq<Seq<char>>, device: Seq<char>) -> int {
    match first_index_spec(device_ids, device) {
        Some(i) => i,
        None => 0,
    }
}

/// The entry of the microphone list to select.
pub fn device_position(device_ids: &[String], device: &str) -> (position: usize)
    ensures
        position == device_position_spec(string_views(device_ids@), device@),
{
    match first_position(device_ids, device) {
        Some(i) => i,
        None => 0,
    }
}

/// The device chosen by the microphone list's selection (the first entry
/// when nothing is selected); `default_device` past the end of the list.
pub open spec fn device_from_selection_spec(
    selection: isize,
    device_ids: Seq<Seq<char>>,
    default_device: Seq<char>,
) -> Seq<char> {
    let position = if selection < 0 {
        0
    } else {
        selection as int
    };
    if position < device_ids.len() {
        device_ids[position]
    } else {
        default_device
    }
}

/// The device chosen by the microphone list's selection.
pub fn device_from_selection(selection: isize, device_ids: &[String], default_device: &str) -> (device: String)
    ensures
        device@ == device_from_selection_spec(selection, string_views(device_ids@), default_device@),
{
    let position: usize = if selection < 0 {
        0
    } else {
        selection as usize
    };
    if position < device_ids.len() {
        device_ids[position].clone()
    } else {
        default_device.to_owned()
    }
}

/// Selecting the microphone entry shown for a listed device gives it back.
pub proof fn lemma_device_round_trip(device_ids: Seq<Seq<char>>, device: Seq<char>, default_device: Seq<char>)
    requires
        device_ids.len() < isize::MAX,
        device_ids.contains(device),
    ensures
        device_from_selection_spec(device_position_spec(device_ids, device) as isize, device_ids, default_device)
            == device,
{
    lemma_first_index(device_ids, device);
}

/// The language of the user interface chosen by the language list's
/// selection; Italian when nothing listed is selected.
pub open spec fn ui_language_from_selection_spec(selection: isize) -> Language {
    match language_at_spec(selection as int) {
        Some(l) => l,
        None => Language::Italian,
    }
}

/// The language of the user interface chosen by the language list's selection.
pub fn ui_language_from_selection(selection: isize) -> (language: Language)
    ensures
        language == ui_language_from_selection_spec(selection),
{
    match sonarpad_language_from_index(selection) {
        Some(l) => l,
        None => Language::Italian,
    }
}

/// The language entry of the speech-recognition audio language list for the
/// setting `code`: the language of the (trimmed) code, or `ui_language`
/// when the code names none.
pub open spec fn whisper_language_position_spec(code: Seq<char>, ui_language: Language) -> nat {
    match language_of_code_spec(trim_spec(code)) {
        Some(l) => language_index_spec(l),
        None => language_index_spec(ui_language),
    }
}

/// The entry of the speech-recognition audio language list to select.
pub fn whisper_language_position(code: &str, ui_language: Language) -> (position: usize)
    ensures
        position == whisper_language_position_spec(code@, ui_language),
{
    let language = match whisper_audio_language_from_code(code) {
        Some(l) => l,
        None => ui_language,
    };
    sonarpad_language_index(language)
}

/// The code of the speech-recognition audio language chosen by the list's
/// selection; the code of `ui_language` when nothing listed is selected.
pub open spec fn whisper_language_from_selection_spec(selection: isize, ui_language: Language) -> Seq<char> {
    match language_at_spec(selection as int) {
        Some(l) => language_code_spec(l),
        None => language_code_spec(ui_language),
    }
}

/// The code of the speech-recognition audio language chosen by the list's selection.
pub fn whisper_language_from_selection(selection: isize, ui_language: Language) -> (code: String)
    ensures
        code@ == whisper_language_from_selection_spec(selection, ui_language),
{
    let language = match sonarpad_language_from_index(selection) {
        Some(l) => l,
        None => ui_language,
    };
    sonarpad_language_code(language).to_owned()
}

/// Selecting the audio-language entry shown for a language's code gives the
/// code back, whatever the interface language.
pub proof fn lemma_whisper_language_round_trip(language: Language, ui_language: Language)
    ensures
        whisper_language_from_selection_spec(
            whisper_language_position_spec(language_code_spec(language), ui_language) as isize,
            ui_language,
        ) == language_code_spec(language),
{
    lemma_language_code_round_trip(language);
    lemma_language_index_round_trip(language);
}

/// The part naming chosen by the list's entry; unchanged when nothing is
/// selected.
pub fn part_naming_setting(selection: isize, current: AudiobookPartNamingMode) -> (mode: AudiobookPartNamingMode)
    ensures
        mode == (if selection < 0 {
            current
        } else {
            part_naming_from_selection_spec(selection)
        }),
{
    if selection < 0 {
        current
    } else {
        part_naming_from_selection(selection)
    }
}

/// The part announcement chosen by the list's entry; unchanged when nothing
/// is selected.
pub fn part_announcement_setting(selection: isize, current: AudiobookPartAnnouncementMode) -> (mode:
    AudiobookPartAnnouncementMode)
    ensures
        mode == (if selection < 0 {
            current
        } else {
            part_announcement_from_selection_spec(selection)
        }),
{
    if selection < 0 {
        current
    } else {
        part_announcement_from_selection(selection)
    }
}

/// The wrap width read from its field: the trimmed text as a positive whole
/// number, else `current`.
pub open spec fn wrap_width_from_text_spec(text: Seq<char>, current: u32) -> u32 {
    match parse_u32_spec(trim_spec(text)) {
        Some(n) => if n > 0 {
            n
        } else {
            current
        },
        None => current,
    }
}

/// The wrap width read from its field.
pub fn wrap_width_from_text(text: &str, current: u32) -> (width: u32)
    ensures
        width == wrap_width_from_text_spec(text@, current),
{
    match parse_trimmed_u32(text) {
        Some(n) => if n > 0 {
            n
        } else {
            current
        },
        None => current,
    }
}

/// The subtitle offset read from its field: the trimmed text as a whole
/// number of milliseconds, else `current`.
pub fn subtitle_offset_from_text(text: &str, current: i32) -> (offset: i32)
    ensures
        offset == (match parse_i32_spec(trim_spec(text@)) {
            Some(n) => n,
            None => current,
        }),
{
    match parse_trimmed_i32(text) {
        Some(n) => n,
        None => current,
    }
}

/// The podcast cache limit read from its field: the trimmed text as a whole
/// number of megabytes, kept between 100 and 2048, else `current`.
pub open spec fn cache_limit_from_text_spec(text: Seq<char>, current: u32) -> u32 {
    match parse_u32_spec(trim_spec(text)) {
        Some(n) => if n < 100 {
            100
        } else if n > 2048 {
            2048
        } else {
            n
        },
        None => current,
    }
}

/// The podcast cache limit read from its field.
pub fn cache_limit_from_text(text: &str, current: u32) -> (limit: u32)
    ensures
        limit == cache_limit_from_text_spec(text@, current),
{
    match parse_trimmed_u32(text) {
        Some(n) => if n < 100 {
            100
        } else if n > 2048 {
            2048
        } else {
            n
        },
        None => current,
    }
}

/// Reading back the numbers the dialog writes into its fields gives them
/// back: a positive wrap width, any subtitle offset, and a cache limit from
/// 100 to 2048.
pub proof fn lemma_number_fields_round_trip(width: u32, offset: i32, limit: u32, current_width: u32, current_limit: u32)
    ensures
        width > 0 ==> wrap_width_from_text_spec(decimal_spec(width as nat), current_width) == width,
        parse_i32_spec(trim_spec(signed_decimal_spec(offset as int))) == Some(offset),
        100 <= limit <= 2048 ==> cache_limit_from_text_spec(decimal_spec(limit as nat), current_limit) == limit,
{
    lemma_parse_decimal(width as nat);
    lemma_parse_decimal(limit as nat);
    lemma_parse_signed_decimal(offset as int);
}

/// The quotes that open a dialogue when the field is left blank.
pub const DEFAULT_DIALOGUE_OPENING_QUOTES: &'static str = "\"|\u{201C}|\u{00AB}|\u{201E}";
/// The quotes that close a dialogue when the field is left blank.
pub const DEFAULT_DIALOGUE_CLOSING_QUOTES: &'static str = "\"|\u{201D}|\u{00BB}|\u{201C}";

/// A dialogue-quote setting read from its field: the trimmed text, or
/// `default_quotes` when that is empty.
pub fn dialogue_quotes_from_text(text: &str, default_quotes: &str) -> (quotes: String)
    ensures
        quotes@ == (if trim_spec(text@).len() == 0 {
            default_quotes@
        } else {
            trim_spec(text@)
        }),
{
    let trimmed = trim(text);
    if trimmed.as_str().is_empty() {
        default_quotes.to_owned()
    } else {
        trimmed
    }
}

/// Whether deleting RSS or podcast items asks at all.
pub fn confirm_delete_rss_podcast(rss: RssDeleteConfirmMode, podcast: PodcastDeleteConfirmMode) -> (confirm: bool)
    ensures
        confirm == (rss != RssDeleteConfirmMode::Never || podcast != PodcastDeleteConfirmMode::Never),
{
    rss != RssDeleteConfirmMode::Never || podcast != PodcastDeleteConfirmMode::Never
}

/// Whether an audio description is made after a TV recording: only for the
/// Italian interface, where the box is offered, and when it is ticked.
pub fn audio_description_after_tv_recording(language: Language, ticked: bool) -> (enabled: bool)
    ensures
        enabled == (language == Language::Italian && ticked),
{
    language == Language::Italian && ticked
}

} // verus!
