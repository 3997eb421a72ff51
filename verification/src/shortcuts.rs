//! Keyboard shortcuts of the configurable actions: their labels, reading and
//! writing them in the settings, finding conflicts with other actions and with
//! the fixed shortcuts of the menus, and capturing a new shortcut from a key.

use vstd::prelude::*;

use crate::i18n::Catalog;
use crate::model::{Language, ShortcutBinding, ShortcutSettings};
use crate::order::string_views;
use crate::text::{chars_of, concat_str, starts_with_spec, string_from_chars};

verus! {

/// The actions whose shortcut the user can change.
#[derive(Clone, Copy, Debug, PartialEq, Eq, Structural)]
pub enum ShortcutAction {
    ReadPauseResume,
    ReadStart,
    ReadPreviousSentence,
    ReadNextSentence,
    ReadStop,
    ExecuteFile,
    Audiobook,
    BatchAudiobooks,
    RecordPodcast,
    Dictation,
    ConvertAudio,
    OpenRss,
    OpenPodcasts,
    OpenPathsNavigation,
    OpenRadio,
    OpenCalendar,
    OpenWeather,
    OpenCinema,
    OpenDictionary,
    OpenOptions,
    OpenTerminal,
    ImportWikipedia,
    ImportYoutube,
    Find,
    QuoteLines,
    UnquoteLines,
    MediaPrev,
    MediaNext,
    ChapterPrev,
    ChapterNext,
}

/// The position of an action in the list of actions.
pub open spec fn action_index_spec(action: ShortcutAction) -> nat {
    match action {
        ShortcutAction::ReadPauseResume => 0,
        ShortcutAction::ReadStart => 1,
        ShortcutAction::ReadPreviousSentence => 2,
        ShortcutAction::ReadNextSentence => 3,
        ShortcutAction::ReadStop => 4,
        ShortcutAction::ExecuteFile => 5,
        ShortcutAction::Audiobook => 6,
        ShortcutAction::BatchAudiobooks => 7,
        ShortcutAction::RecordPodcast => 8,
        ShortcutAction::Dictation => 9,
        ShortcutAction::ConvertAudio => 10,
        ShortcutAction::OpenRss => 11,
        ShortcutAction::OpenPodcasts => 12,
        ShortcutAction::OpenPathsNavigation => 13,
        ShortcutAction::OpenRadio => 14,
        ShortcutAction::OpenCalendar => 15,
        ShortcutAction::OpenWeather => 16,
        ShortcutAction::OpenCinema => 17,
        ShortcutAction::OpenDictionary => 18,
        ShortcutAction::OpenOptions => 19,
        ShortcutAction::OpenTerminal => 20,
        ShortcutAction::ImportWikipedia => 21,
        ShortcutAction::ImportYoutube => 22,
        ShortcutAction::Find => 23,
        ShortcutAction::QuoteLines => 24,
        ShortcutAction::UnquoteLines => 25,
        ShortcutAction::MediaPrev => 26,
        ShortcutAction::MediaNext => 27,
        ShortcutAction::ChapterPrev => 28,
        ShortcutAction::ChapterNext => 29,
    }
}

/// The number of configurable actions.
pub open spec fn action_count_spec() -> nat {
    30
}

/// The action at position `index` of the list of actions.
pub open spec fn action_at_spec(index: int) -> Option<ShortcutAction> {
    if index == 0 {
        Some(ShortcutAction::ReadPauseResume)
    } else if index == 1 {
        Some(ShortcutAction::ReadStart)
    } else if index == 2 {
        Some(ShortcutAction::ReadPreviousSentence)
    } else if index == 3 {
        Some(ShortcutAction::ReadNextSentence)
    } else if index == 4 {
        Some(ShortcutAction::ReadStop)
    } else if index == 5 {
        Some(ShortcutAction::ExecuteFile)
    } else if index == 6 {
        Some(ShortcutAction::Audiobook)
    } else if index == 7 {
        Some(ShortcutAction::BatchAudiobooks)
    } else if index == 8 {
        Some(ShortcutAction::RecordPodcast)
    } else if index == 9 {
        Some(ShortcutAction::Dictation)
    } else if index == 10 {
        Some(ShortcutAction::ConvertAudio)
    } else if index == 11 {
        Some(ShortcutAction::OpenRss)
    } else if index == 12 {
        Some(ShortcutAction::OpenPodcasts)
    } else if index == 13 {
        Some(ShortcutAction::OpenPathsNavigation)
    } else if index == 14 {
        Some(ShortcutAction::OpenRadio)
    } else if index == 15 {
        Some(ShortcutAction::OpenCalendar)
    } else if index == 16 {
        Some(ShortcutAction::OpenWeather)
    } else if index == 17 {
        Some(ShortcutAction::OpenCinema)
    } else if index == 18 {
        Some(ShortcutAction::OpenDictionary)
    } else if index == 19 {
        Some(ShortcutAction::OpenOptions)
    } else if index == 20 {
        Some(ShortcutAction::OpenTerminal)
    } else if index == 21 {
        Some(ShortcutAction::ImportWikipedia)
    } else if index == 22 {
        Some(ShortcutAction::ImportYoutube)
    } else if index == 23 {
        Some(ShortcutAction::Find)
    } else if index == 24 {
        Some(ShortcutAction::QuoteLines)
    } else if index == 25 {
        Some(ShortcutAction::UnquoteLines)
    } else if index == 26 {
        Some(ShortcutAction::MediaPrev)
    } else if index == 27 {
        Some(ShortcutAction::MediaNext)
    } else if index == 28 {
        Some(ShortcutAction::ChapterPrev)
    } else if index == 29 {
        Some(ShortcutAction::ChapterNext)
    } else {
        None
    }
}

/// Positions and actions correspond one to one.
pub proof fn lemma_action_index_round_trip(action: ShortcutAction)
    ensures
        action_index_spec(action) < action_count_spec(),
        action_at_spec(action_index_spec(action) as int) == Some(action),
{
}

/// The action at position `index` of the list of actions (`ShortcutAction::ALL.get(index)`).
pub fn shortcut_action_at(index: usize) -> (r: Option<ShortcutAction>)
    ensures
        r == action_at_spec(index as int),
        r is Some <==> index < action_count_spec(),
{
    match index {
        0 => Some(ShortcutAction::ReadPauseResume),
        1 => Some(ShortcutAction::ReadStart),
        2 => Some(ShortcutAction::ReadPreviousSentence),
        3 => Some(ShortcutAction::ReadNextSentence),
        4 => Some(ShortcutAction::ReadStop),
        5 => Some(ShortcutAction::ExecuteFile),
        6 => Some(ShortcutAction::Audiobook),
        7 => Some(ShortcutAction::BatchAudiobooks),
        8 => Some(ShortcutAction::RecordPodcast),
        9 => Some(ShortcutAction::Dictation),
        10 => Some(ShortcutAction::ConvertAudio),
        11 => Some(ShortcutAction::OpenRss),
        12 => Some(ShortcutAction::OpenPodcasts),
        13 => Some(ShortcutAction::OpenPathsNavigation),
        14 => Some(ShortcutAction::OpenRadio),
        15 => Some(ShortcutAction::OpenCalendar),
        16 => Some(ShortcutAction::OpenWeather),
        17 => Some(ShortcutAction::OpenCinema),
        18 => Some(ShortcutAction::OpenDictionary),
        19 => Some(ShortcutAction::OpenOptions),
        20 => Some(ShortcutAction::OpenTerminal),
        21 => Some(ShortcutAction::ImportWikipedia),
        22 => Some(ShortcutAction::ImportYoutube),
        23 => Some(ShortcutAction::Find),
        24 => Some(ShortcutAction::QuoteLines),
        25 => Some(ShortcutAction::UnquoteLines),
        26 => Some(ShortcutAction::MediaPrev),
        27 => Some(ShortcutAction::MediaNext),
        28 => Some(ShortcutAction::ChapterPrev),
        29 => Some(ShortcutAction::ChapterNext),
        _ => None,
    }
}

/// The action selected in the action list: the one at the selection, the
/// first one when nothing (a negative selection) or no action is there.
pub fn selected_shortcut_action(selection: isize) -> (action: ShortcutAction)
    ensures
        action == (if selection < 0 {
            ShortcutAction::ReadPauseResume
        } else {
            match action_at_spec(selection as int) {
                Some(a) => a,
                None => ShortcutAction::ReadPauseResume,
            }
        }),
{
    let idx: usize = if selection < 0 {
        0
    } else {
        selection as usize
    };
    match shortcut_action_at(idx) {
        Some(a) => a,
        None => ShortcutAction::ReadPauseResume,
    }
}

/// The translation key of an action's name.
pub open spec fn action_key_spec(action: ShortcutAction) -> Seq<char> {
    match action {
        ShortcutAction::ReadPauseResume => "options.shortcuts.action.read_pause_resume"@,
        ShortcutAction::ReadStart => "options.shortcuts.action.read_start"@,
        ShortcutAction::ReadPreviousSentence => "file.read_previous_sentence"@,
        ShortcutAction::ReadNextSentence => "file.read_next_sentence"@,
        ShortcutAction::ReadStop => "options.shortcuts.action.read_stop"@,
        ShortcutAction::ExecuteFile => "options.shortcuts.action.execute_file"@,
        ShortcutAction::Audiobook => "options.shortcuts.action.audiobook"@,
        ShortcutAction::BatchAudiobooks => "options.shortcuts.action.batch_audiobooks"@,
        ShortcutAction::RecordPodcast => "options.shortcuts.action.record_podcast"@,
        ShortcutAction::Dictation => "options.shortcuts.action.dictation"@,
        ShortcutAction::ConvertAudio => "options.shortcuts.action.convert_audio"@,
        ShortcutAction::OpenRss => "options.shortcuts.action.open_rss"@,
        ShortcutAction::OpenPodcasts => "options.shortcuts.action.open_podcasts"@,
        ShortcutAction::OpenPathsNavigation => "options.shortcuts.action.open_paths_navigation"@,
        ShortcutAction::OpenRadio => "options.shortcuts.action.open_radio"@,
        ShortcutAction::OpenCalendar => "options.shortcuts.action.open_calendar"@,
        ShortcutAction::OpenWeather => "options.shortcuts.action.open_weather"@,
        ShortcutAction::OpenCinema => "options.shortcuts.action.open_cinema"@,
        ShortcutAction::OpenDictionary => "options.shortcuts.action.open_dictionary"@,
        ShortcutAction::OpenOptions => "options.shortcuts.action.open_options"@,
        ShortcutAction::OpenTerminal => "options.shortcuts.action.open_terminal"@,
        ShortcutAction::ImportWikipedia => "options.shortcuts.action.import_wikipedia"@,
        ShortcutAction::ImportYoutube => "options.shortcuts.action.import_youtube"@,
        ShortcutAction::Find => "options.shortcuts.action.find"@,
        ShortcutAction::QuoteLines => "options.shortcuts.action.quote_lines"@,
        ShortcutAction::UnquoteLines => "options.shortcuts.action.unquote_lines"@,
        ShortcutAction::MediaPrev => "options.shortcuts.action.media_prev"@,
        ShortcutAction::MediaNext => "options.shortcuts.action.media_next"@,
        ShortcutAction::ChapterPrev => "playback.chapter_prev"@,
        ShortcutAction::ChapterNext => "playback.chapter_next"@,
    }
}

/// The action whose translation key `k` is, read from the key's length and
/// its last two characters, which tell the keys apart.
spec fn action_of_key_spec(k: Seq<char>) -> Option<ShortcutAction> {
    if k.len() == 42 && k[k.len() - 1] == 'e' && k[k.len() - 2] == 'm' {
        Some(ShortcutAction::ReadPauseResume)
    } else if k.len() == 35 && k[k.len() - 1] == 't' && k[k.len() - 2] == 'r' {
        Some(ShortcutAction::ReadStart)
    } else if k.len() == 27 && k[k.len() - 1] == 'e' && k[k.len() - 2] == 'c' {
        Some(ShortcutAction::ReadPreviousSentence)
    } else if k.len() == 23 && k[k.len() - 1] == 'e' && k[k.len() - 2] == 'c' {
        Some(ShortcutAction::ReadNextSentence)
    } else if k.len() == 34 && k[k.len() - 1] == 'p' && k[k.len() - 2] == 'o' {
        Some(ShortcutAction::ReadStop)
    } else if k.len() == 37 && k[k.len() - 1] == 'e' && k[k.len() - 2] == 'l' {
        Some(ShortcutAction::ExecuteFile)
    } else if k.len() == 34 && k[k.len() - 1] == 'k' && k[k.len() - 2] == 'o' {
        Some(ShortcutAction::Audiobook)
    } else if k.len() == 41 && k[k.len() - 1] == 's' && k[k.len() - 2] == 'k' {
        Some(ShortcutAction::BatchAudiobooks)
    } else if k.len() == 39 && k[k.len() - 1] == 't' && k[k.len() - 2] == 's' {
        Some(ShortcutAction::RecordPodcast)
    } else if k.len() == 34 && k[k.len() - 1] == 'n' && k[k.len() - 2] == 'o' {
        Some(ShortcutAction::Dictation)
    } else if k.len() == 38 && k[k.len() - 1] == 'o' && k[k.len() - 2] == 'i' {
        Some(ShortcutAction::ConvertAudio)
    } else if k.len() == 33 && k[k.len() - 1] == 's' && k[k.len() - 2] == 's' {
        Some(ShortcutAction::OpenRss)
    } else if k.len() == 38 && k[k.len() - 1] == 's' && k[k.len() - 2] == 't' {
        Some(ShortcutAction::OpenPodcasts)
    } else if k.len() == 46 && k[k.len() - 1] == 'n' && k[k.len() - 2] == 'o' {
        Some(ShortcutAction::OpenPathsNavigation)
    } else if k.len() == 35 && k[k.len() - 1] == 'o' && k[k.len() - 2] == 'i' {
        Some(ShortcutAction::OpenRadio)
    } else if k.len() == 38 && k[k.len() - 1] == 'r' && k[k.len() - 2] == 'a' {
        Some(ShortcutAction::OpenCalendar)
    } else if k.len() == 37 && k[k.len() - 1] == 'r' && k[k.len() - 2] == 'e' {
        Some(ShortcutAction::OpenWeather)
    } else if k.len() == 36 && k[k.len() - 1] == 'a' && k[k.len() - 2] == 'm' {
        Some(ShortcutAction::OpenCinema)
    } else if k.len() == 40 && k[k.len() - 1] == 'y' && k[k.len() - 2] == 'r' {
        Some(ShortcutAction::OpenDictionary)
    } else if k.len() == 37 && k[k.len() - 1] == 's' && k[k.len() - 2] == 'n' {
        Some(ShortcutAction::OpenOptions)
    } else if k.len() == 38 && k[k.len() - 1] == 'l' && k[k.len() - 2] == 'a' {
        Some(ShortcutAction::OpenTerminal)
    } else if k.len() == 41 && k[k.len() - 1] == 'a' && k[k.len() - 2] == 'i' {
        Some(ShortcutAction::ImportWikipedia)
    } else if k.len() == 39 && k[k.len() - 1] == 'e' && k[k.len() - 2] == 'b' {
        Some(ShortcutAction::ImportYoutube)
    } else if k.len() == 29 && k[k.len() - 1] == 'd' && k[k.len() - 2] == 'n' {
        Some(ShortcutAction::Find)
    } else if k.len() == 36 && k[k.len() - 1] == 's' && k[k.len() - 2] == 'e' {
        Some(ShortcutAction::QuoteLines)
    } else if k.len() == 38 && k[k.len() - 1] == 's' && k[k.len() - 2] == 'e' {
        Some(ShortcutAction::UnquoteLines)
    } else if k.len() == 35 && k[k.len() - 1] == 'v' && k[k.len() - 2] == 'e' {
        Some(ShortcutAction::MediaPrev)
    } else if k.len() == 35 && k[k.len() - 1] == 't' && k[k.len() - 2] == 'x' {
        Some(ShortcutAction::MediaNext)
    } else if k.len() == 21 && k[k.len() - 1] == 'v' && k[k.len() - 2] == 'e' {
        Some(ShortcutAction::ChapterPrev)
    } else if k.len() == 21 && k[k.len() - 1] == 't' && k[k.len() - 2] == 'x' {
        Some(ShortcutAction::ChapterNext)
    } else {
        None
    }
}

/// An action read back from its own translation key.
proof fn lemma_action_of_key(a: ShortcutAction)
    ensures
        action_of_key_spec(action_key_spec(a)) == Some(a),
        !(a is ReadPreviousSentence || a is ReadNextSentence || a is ChapterPrev || a is ChapterNext)
            ==> starts_with_spec(action_key_spec(a), "options.shortcuts.action."@),
{
    reveal_strlit("options.shortcuts.action.");
    reveal_strlit("options.shortcuts.action.read_pause_resume");
    reveal_strlit("options.shortcuts.action.read_start");
    reveal_strlit("file.read_previous_sentence");
    reveal_strlit("file.read_next_sentence");
    reveal_strlit("options.shortcuts.action.read_stop");
    reveal_strlit("options.shortcuts.action.execute_file");
    reveal_strlit("options.shortcuts.action.audiobook");
    reveal_strlit("options.shortcuts.action.batch_audiobooks");
    reveal_strlit("options.shortcuts.action.record_podcast");
    reveal_strlit("options.shortcuts.action.dictation");
    reveal_strlit("options.shortcuts.action.convert_audio");
    reveal_strlit("options.shortcuts.action.open_rss");
    reveal_strlit("options.shortcuts.action.open_podcasts");
    reveal_strlit("options.shortcuts.action.open_paths_navigation");
    reveal_strlit("options.shortcuts.action.open_radio");
    reveal_strlit("options.shortcuts.action.open_calendar");
    reveal_strlit("options.shortcuts.action.open_weather");
    reveal_strlit("options.shortcuts.action.open_cinema");
    reveal_strlit("options.shortcuts.action.open_dictionary");
    reveal_strlit("options.shortcuts.action.open_options");
    reveal_strlit("options.shortcuts.action.open_terminal");
    reveal_strlit("options.shortcuts.action.import_wikipedia");
    reveal_strlit("options.shortcuts.action.import_youtube");
    reveal_strlit("options.shortcuts.action.find");
    reveal_strlit("options.shortcuts.action.quote_lines");
    reveal_strlit("options.shortcuts.action.unquote_lines");
    reveal_strlit("options.shortcuts.action.media_prev");
    reveal_strlit("options.shortcuts.action.media_next");
    reveal_strlit("playback.chapter_prev");
    reveal_strlit("playback.chapter_next");
    match a {
        ShortcutAction::ReadPauseResume => {
            assert(action_of_key_spec(action_key_spec(a)) == Some(ShortcutAction::ReadPauseResume));
            assert(action_key_spec(a).subrange(0, 25) =~= "options.shortcuts.action."@);
        },
        ShortcutAction::ReadStart => {
            assert(action_of_key_spec(action_key_spec(a)) == Some(ShortcutAction::ReadStart));
            assert(action_key_spec(a).subrange(0, 25) =~= "options.shortcuts.action."@);
        },
        ShortcutAction::ReadPreviousSentence => {
            assert(action_of_key_spec(action_key_spec(a)) == Some(ShortcutAction::ReadPreviousSentence));
        },
        ShortcutAction::ReadNextSentence => {
            assert(action_of_key_spec(action_key_spec(a)) == Some(ShortcutAction::ReadNextSentence));
        },
        ShortcutAction::ReadStop => {
            assert(action_of_key_spec(action_key_spec(a)) == Some(ShortcutAction::ReadStop));
            assert(action_key_spec(a).subrange(0, 25) =~= "options.shortcuts.action."@);
        },
        ShortcutAction::ExecuteFile => {
            assert(action_of_key_spec(action_key_spec(a)) == Some(ShortcutAction::ExecuteFile));
            assert(action_key_spec(a).subrange(0, 25) =~= "options.shortcuts.action."@);
        },
        ShortcutAction::Audiobook => {
            assert(action_of_key_spec(action_key_spec(a)) == Some(ShortcutAction::Audiobook));
            assert(action_key_spec(a).subrange(0, 25) =~= "options.shortcuts.action."@);
        },
        ShortcutAction::BatchAudiobooks => {
            assert(action_of_key_spec(action_key_spec(a)) == Some(ShortcutAction::BatchAudiobooks));
            assert(action_key_spec(a).subrange(0, 25) =~= "options.shortcuts.action."@);
        },
        ShortcutAction::RecordPodcast => {
            assert(action_of_key_spec(action_key_spec(a)) == Some(ShortcutAction::RecordPodcast));
            assert(action_key_spec(a).subrange(0, 25) =~= "options.shortcuts.action."@);
        },
        ShortcutAction::Dictation => {
            assert(action_of_key_spec(action_key_spec(a)) == Some(ShortcutAction::Dictation));
            assert(action_key_spec(a).subrange(0, 25) =~= "options.shortcuts.action."@);
        },
        ShortcutAction::ConvertAudio => {
            assert(action_of_key_spec(action_key_spec(a)) == Some(ShortcutAction::ConvertAudio));
            assert(action_key_spec(a).subrange(0, 25) =~= "options.shortcuts.action."@);
        },
        ShortcutAction::OpenRss => {
            assert(action_of_key_spec(action_key_spec(a)) == Some(ShortcutAction::OpenRss));
            assert(action_key_spec(a).subrange(0, 25) =~= "options.shortcuts.action."@);
        },
        ShortcutAction::OpenPodcasts => {
            assert(action_of_key_spec(action_key_spec(a)) == Some(ShortcutAction::OpenPodcasts));
            assert(action_key_spec(a).subrange(0, 25) =~= "options.shortcuts.action."@);
        },
        ShortcutAction::OpenPathsNavigation => {
            assert(action_of_key_spec(action_key_spec(a)) == Some(ShortcutAction::OpenPathsNavigation));
            assert(action_key_spec(a).subrange(0, 25) =~= "options.shortcuts.action."@);
        },
        ShortcutAction::OpenRadio => {
            assert(action_of_key_spec(action_key_spec(a)) == Some(ShortcutAction::OpenRadio));
            assert(action_key_spec(a).subrange(0, 25) =~= "options.shortcuts.action."@);
        },
        ShortcutAction::OpenCalendar => {
            assert(action_of_key_spec(action_key_spec(a)) == Some(ShortcutAction::OpenCalendar));
            assert(action_key_spec(a).subrange(0, 25) =~= "options.shortcuts.action."@);
        },
        ShortcutAction::OpenWeather => {
            assert(action_of_key_spec(action_key_spec(a)) == Some(ShortcutAction::OpenWeather));
            assert(action_key_spec(a).subrange(0, 25) =~= "options.shortcuts.action."@);
        },
        ShortcutAction::OpenCinema => {
            assert(action_of_key_spec(action_key_spec(a)) == Some(ShortcutAction::OpenCinema));
            assert(action_key_spec(a).subrange(0, 25) =~= "options.shortcuts.action."@);
        },
        ShortcutAction::OpenDictionary => {
            assert(action_of_key_spec(action_key_spec(a)) == Some(ShortcutAction::OpenDictionary));
            assert(action_key_spec(a).subrange(0, 25) =~= "options.shortcuts.action."@);
        },
        ShortcutAction::OpenOptions => {
            assert(action_of_key_spec(action_key_spec(a)) == Some(ShortcutAction::OpenOptions));
            assert(action_key_spec(a).subrange(0, 25) =~= "options.shortcuts.action."@);
        },
        ShortcutAction::OpenTerminal => {
            assert(action_of_key_spec(action_key_spec(a)) == Some(ShortcutAction::OpenTerminal));
            assert(action_key_spec(a).subrange(0, 25) =~= "options.shortcuts.action."@);
        },
        ShortcutAction::ImportWikipedia => {
            assert(action_of_key_spec(action_key_spec(a)) == Some(ShortcutAction::ImportWikipedia));
            assert(action_key_spec(a).subrange(0, 25) =~= "options.shortcuts.action."@);
        },
        ShortcutAction::ImportYoutube => {
            assert(action_of_key_spec(action_key_spec(a)) == Some(ShortcutAction::ImportYoutube));
            assert(action_key_spec(a).subrange(0, 25) =~= "options.shortcuts.action."@);
        },
        ShortcutAction::Find => {
            assert(action_of_key_spec(action_key_spec(a)) == Some(ShortcutAction::Find));
            assert(action_key_spec(a).subrange(0, 25) =~= "options.shortcuts.action."@);
        },
        ShortcutAction::QuoteLines => {
            assert(action_of_key_spec(action_key_spec(a)) == Some(ShortcutAction::QuoteLines));
            assert(action_key_spec(a).subrange(0, 25) =~= "options.shortcuts.action."@);
        },
        ShortcutAction::UnquoteLines => {
            assert(action_of_key_spec(action_key_spec(a)) == Some(ShortcutAction::UnquoteLines));
            assert(action_key_spec(a).subrange(0, 25) =~= "options.shortcuts.action."@);
        },
        ShortcutAction::MediaPrev => {
            assert(action_of_key_spec(action_key_spec(a)) == Some(ShortcutAction::MediaPrev));
            assert(action_key_spec(a).subrange(0, 25) =~= "options.shortcuts.action."@);
        },
        ShortcutAction::MediaNext => {
            assert(action_of_key_spec(action_key_spec(a)) == Some(ShortcutAction::MediaNext));
            assert(action_key_spec(a).subrange(0, 25) =~= "options.shortcuts.action."@);
        },
        ShortcutAction::ChapterPrev => {
            assert(action_of_key_spec(action_key_spec(a)) == Some(ShortcutAction::ChapterPrev));
        },
        ShortcutAction::ChapterNext => {
            assert(action_of_key_spec(action_key_spec(a)) == Some(ShortcutAction::ChapterNext));
        },
    }
}

/// The translation keys of the actions' names are pairwise different, and
/// all but those of the sentence reading and chapter actions begin with
/// "options.shortcuts.action.".
pub proof fn lemma_action_keys_distinct(a: ShortcutAction, b: ShortcutAction)
    ensures
        a != b ==> action_key_spec(a) != action_key_spec(b),
        !(a is ReadPreviousSentence || a is ReadNextSentence || a is ChapterPrev || a is ChapterNext)
            ==> starts_with_spec(action_key_spec(a), "options.shortcuts.action."@),
{
    lemma_action_of_key(a);
    lemma_action_of_key(b);
}

/// Each action reads and writes the field of the settings named after it.
pub proof fn lemma_binding_is_own_field(s: ShortcutSettings)
    ensures
        binding_spec(s, ShortcutAction::ReadPauseResume) == s.read_pause_resume,
        binding_spec(s, ShortcutAction::ReadStart) == s.read_start,
        binding_spec(s, ShortcutAction::ReadPreviousSentence) == s.read_previous_sentence,
        binding_spec(s, ShortcutAction::ReadNextSentence) == s.read_next_sentence,
        binding_spec(s, ShortcutAction::ReadStop) == s.read_stop,
        binding_spec(s, ShortcutAction::ExecuteFile) == s.execute_file,
        binding_spec(s, ShortcutAction::Audiobook) == s.audiobook,
        binding_spec(s, ShortcutAction::BatchAudiobooks) == s.batch_audiobooks,
        binding_spec(s, ShortcutAction::RecordPodcast) == s.record_podcast,
        binding_spec(s, ShortcutAction::Dictation) == s.dictation,
        binding_spec(s, ShortcutAction::ConvertAudio) == s.convert_audio,
        binding_spec(s, ShortcutAction::OpenRss) == s.open_rss,
        binding_spec(s, ShortcutAction::OpenPodcasts) == s.open_podcasts,
        binding_spec(s, ShortcutAction::OpenPathsNavigation) == s.open_paths_navigation,
        binding_spec(s, ShortcutAction::OpenRadio) == s.open_radio,
        binding_spec(s, ShortcutAction::OpenCalendar) == s.open_calendar,
        binding_spec(s, ShortcutAction::OpenWeather) == s.open_weather,
        binding_spec(s, ShortcutAction::OpenCinema) == s.open_cinema,
        binding_spec(s, ShortcutAction::OpenDictionary) == s.open_dictionary,
        binding_spec(s, ShortcutAction::OpenOptions) == s.open_options,
        binding_spec(s, ShortcutAction::OpenTerminal) == s.open_terminal,
        binding_spec(s, ShortcutAction::ImportWikipedia) == s.import_wikipedia,
        binding_spec(s, ShortcutAction::ImportYoutube) == s.import_youtube,
        binding_spec(s, ShortcutAction::Find) == s.find,
        binding_spec(s, ShortcutAction::QuoteLines) == s.quote_lines,
        binding_spec(s, ShortcutAction::UnquoteLines) == s.unquote_lines,
        binding_spec(s, ShortcutAction::MediaPrev) == s.media_prev,
        binding_spec(s, ShortcutAction::MediaNext) == s.media_next,
        binding_spec(s, ShortcutAction::ChapterPrev) == s.chapter_prev,
        binding_spec(s, ShortcutAction::ChapterNext) == s.chapter_next,
{
}

/// The labels of the action list, top to bottom, as translation keys.
pub open spec fn action_list_keys() -> Seq<Seq<char>> {
    seq![
        "options.shortcuts.action.read_pause_resume"@,
        "options.shortcuts.action.read_start"@,
        "file.read_previous_sentence"@,
        "file.read_next_sentence"@,
        "options.shortcuts.action.read_stop"@,
        "options.shortcuts.action.execute_file"@,
        "options.shortcuts.action.audiobook"@,
        "options.shortcuts.action.batch_audiobooks"@,
        "options.shortcuts.action.record_podcast"@,
        "options.shortcuts.action.dictation"@,
        "options.shortcuts.action.convert_audio"@,
        "options.shortcuts.action.open_rss"@,
        "options.shortcuts.action.open_podcasts"@,
        "options.shortcuts.action.open_paths_navigation"@,
        "options.shortcuts.action.open_radio"@,
        "options.shortcuts.action.open_calendar"@,
        "options.shortcuts.action.open_weather"@,
        "options.shortcuts.action.open_cinema"@,
        "options.shortcuts.action.open_dictionary"@,
        "options.shortcuts.action.open_options"@,
        "options.shortcuts.action.open_terminal"@,
        "options.shortcuts.action.import_wikipedia"@,
        "options.shortcuts.action.import_youtube"@,
        "options.shortcuts.action.find"@,
        "options.shortcuts.action.quote_lines"@,
        "options.shortcuts.action.unquote_lines"@,
        "options.shortcuts.action.media_prev"@,
        "options.shortcuts.action.media_next"@,
        "playback.chapter_prev"@,
        "playback.chapter_next"@,
    ]
}

/// The action list shows each action at the entry labelled with its name,
/// and each entry is the action its label names; there is no other entry.
pub proof fn lemma_action_list_matches_keys(action: ShortcutAction, index: int)
    ensures
        action_list_keys()[action_index_spec(action) as int] == action_key_spec(action),
        0 <= index < 30 ==> (action_at_spec(index) matches Some(a) && action_key_spec(a) == action_list_keys()[index]),
        !(0 <= index < 30) ==> action_at_spec(index) is None,
{
    match action {
        ShortcutAction::ReadPauseResume => {},
        ShortcutAction::ReadStart => {},
        ShortcutAction::ReadPreviousSentence => {},
        ShortcutAction::ReadNextSentence => {},
        ShortcutAction::ReadStop => {},
        ShortcutAction::ExecuteFile => {},
        ShortcutAction::Audiobook => {},
        ShortcutAction::BatchAudiobooks => {},
        ShortcutAction::RecordPodcast => {},
        ShortcutAction::Dictation => {},
        ShortcutAction::ConvertAudio => {},
        ShortcutAction::OpenRss => {},
        ShortcutAction::OpenPodcasts => {},
        ShortcutAction::OpenPathsNavigation => {},
        ShortcutAction::OpenRadio => {},
        ShortcutAction::OpenCalendar => {},
        ShortcutAction::OpenWeather => {},
        ShortcutAction::OpenCinema => {},
        ShortcutAction::OpenDictionary => {},
        ShortcutAction::OpenOptions => {},
        ShortcutAction::OpenTerminal => {},
        ShortcutAction::ImportWikipedia => {},
        ShortcutAction::ImportYoutube => {},
        ShortcutAction::Find => {},
        ShortcutAction::QuoteLines => {},
        ShortcutAction::UnquoteLines => {},
        ShortcutAction::MediaPrev => {},
        ShortcutAction::MediaNext => {},
        ShortcutAction::ChapterPrev => {},
        ShortcutAction::ChapterNext => {},
    }
}

/// The translation key of the name of `action`.
pub fn shortcut_action_i18n_key(action: ShortcutAction) -> (key: &'static str)
    ensures
        key@ == action_key_spec(action),
{
    match action {
        ShortcutAction::ReadPauseResume => "options.shortcuts.action.read_pause_resume",
        ShortcutAction::ReadStart => "options.shortcuts.action.read_start",
        ShortcutAction::ReadPreviousSentence => "file.read_previous_sentence",
        ShortcutAction::ReadNextSentence => "file.read_next_sentence",
        ShortcutAction::ReadStop => "options.shortcuts.action.read_stop",
        ShortcutAction::ExecuteFile => "options.shortcuts.action.execute_file",
        ShortcutAction::Audiobook => "options.shortcuts.action.audiobook",
        ShortcutAction::BatchAudiobooks => "options.shortcuts.action.batch_audiobooks",
        ShortcutAction::RecordPodcast => "options.shortcuts.action.record_podcast",
        ShortcutAction::Dictation => "options.shortcuts.action.dictation",
        ShortcutAction::ConvertAudio => "options.shortcuts.action.convert_audio",
        ShortcutAction::OpenRss => "options.shortcuts.action.open_rss",
        ShortcutAction::OpenPodcasts => "options.shortcuts.action.open_podcasts",
        ShortcutAction::OpenPathsNavigation => "options.shortcuts.action.open_paths_navigation",
        ShortcutAction::OpenRadio => "options.shortcuts.action.open_radio",
        ShortcutAction::OpenCalendar => "options.shortcuts.action.open_calendar",
        ShortcutAction::OpenWeather => "options.shortcuts.action.open_weather",
        ShortcutAction::OpenCinema => "options.shortcuts.action.open_cinema",
        ShortcutAction::OpenDictionary => "options.shortcuts.action.open_dictionary",
        ShortcutAction::OpenOptions => "options.shortcuts.action.open_options",
        ShortcutAction::OpenTerminal => "options.shortcuts.action.open_terminal",
        ShortcutAction::ImportWikipedia => "options.shortcuts.action.import_wikipedia",
        ShortcutAction::ImportYoutube => "options.shortcuts.action.import_youtube",
        ShortcutAction::Find => "options.shortcuts.action.find",
        ShortcutAction::QuoteLines => "options.shortcuts.action.quote_lines",
        ShortcutAction::UnquoteLines => "options.shortcuts.action.unquote_lines",
        ShortcutAction::MediaPrev => "options.shortcuts.action.media_prev",
        ShortcutAction::MediaNext => "options.shortcuts.action.media_next",
        ShortcutAction::ChapterPrev => "playback.chapter_prev",
        ShortcutAction::ChapterNext => "playback.chapter_next",
    }
}

/// The binding of `action` in `settings`.
pub open spec fn binding_spec(settings: ShortcutSettings, action: ShortcutAction) -> ShortcutBinding {
    match action {
        ShortcutAction::ReadPauseResume => settings.read_pause_resume,
        ShortcutAction::ReadStart => settings.read_start,
        ShortcutAction::ReadPreviousSentence => settings.read_previous_sentence,
        ShortcutAction::ReadNextSentence => settings.read_next_sentence,
        ShortcutAction::ReadStop => settings.read_stop,
        ShortcutAction::ExecuteFile => settings.execute_file,
        ShortcutAction::Audiobook => settings.audiobook,
        ShortcutAction::BatchAudiobooks => settings.batch_audiobooks,
        ShortcutAction::RecordPodcast => settings.record_podcast,
        ShortcutAction::Dictation => settings.dictation,
        ShortcutAction::ConvertAudio => settings.convert_audio,
        ShortcutAction::OpenRss => settings.open_rss,
        ShortcutAction::OpenPodcasts => settings.open_podcasts,
        ShortcutAction::OpenPathsNavigation => settings.open_paths_navigation,
        ShortcutAction::OpenRadio => settings.open_radio,
        ShortcutAction::OpenCalendar => settings.open_calendar,
        ShortcutAction::OpenWeather => settings.open_weather,
        ShortcutAction::OpenCinema => settings.open_cinema,
        ShortcutAction::OpenDictionary => settings.open_dictionary,
        ShortcutAction::OpenOptions => settings.open_options,
        ShortcutAction::OpenTerminal => settings.open_terminal,
        ShortcutAction::ImportWikipedia => settings.import_wikipedia,
        ShortcutAction::ImportYoutube => settings.import_youtube,
        ShortcutAction::Find => settings.find,
        ShortcutAction::QuoteLines => settings.quote_lines,
        ShortcutAction::UnquoteLines => settings.unquote_lines,
        ShortcutAction::MediaPrev => settings.media_prev,
        ShortcutAction::MediaNext => settings.media_next,
        ShortcutAction::ChapterPrev => settings.chapter_prev,
        ShortcutAction::ChapterNext => settings.chapter_next,
    }
}

/// The binding of `action` in `settings`.
pub fn shortcut_binding_for_action(settings: &ShortcutSettings, action: ShortcutAction) -> (b:
    ShortcutBinding)
    ensures
        b == binding_spec(*settings, action),
{
    match action {
        ShortcutAction::ReadPauseResume => settings.read_pause_resume,
        ShortcutAction::ReadStart => settings.read_start,
        ShortcutAction::ReadPreviousSentence => settings.read_previous_sentence,
        ShortcutAction::ReadNextSentence => settings.read_next_sentence,
        ShortcutAction::ReadStop => settings.read_stop,
        ShortcutAction::ExecuteFile => settings.execute_file,
        ShortcutAction::Audiobook => settings.audiobook,
        ShortcutAction::BatchAudiobooks => settings.batch_audiobooks,
        ShortcutAction::RecordPodcast => settings.record_podcast,
        ShortcutAction::Dictation => settings.dictation,
        ShortcutAction::ConvertAudio => settings.convert_audio,
        ShortcutAction::OpenRss => settings.open_rss,
        ShortcutAction::OpenPodcasts => settings.open_podcasts,
        ShortcutAction::OpenPathsNavigation => settings.open_paths_navigation,
        ShortcutAction::OpenRadio => settings.open_radio,
        ShortcutAction::OpenCalendar => settings.open_calendar,
        ShortcutAction::OpenWeather => settings.open_weather,
        ShortcutAction::OpenCinema => settings.open_cinema,
        ShortcutAction::OpenDictionary => settings.open_dictionary,
        ShortcutAction::OpenOptions => settings.open_options,
        ShortcutAction::OpenTerminal => settings.open_terminal,
        ShortcutAction::ImportWikipedia => settings.import_wikipedia,
        ShortcutAction::ImportYoutube => settings.import_youtube,
        ShortcutAction::Find => settings.find,
        ShortcutAction::QuoteLines => settings.quote_lines,
        ShortcutAction::UnquoteLines => settings.unquote_lines,
        ShortcutAction::MediaPrev => settings.media_prev,
        ShortcutAction::MediaNext => settings.media_next,
        ShortcutAction::ChapterPrev => settings.chapter_prev,
        ShortcutAction::ChapterNext => settings.chapter_next,
    }
}

/// Sets the binding of `action` in `settings`; every other action keeps its
/// binding.
pub fn set_shortcut_binding_for_action(
    settings: &mut ShortcutSettings,
    action: ShortcutAction,
    binding: ShortcutBinding,
)
    ensures
        binding_spec(*final(settings), action) == binding,
        forall|other: ShortcutAction|
            other != action ==> binding_spec(*final(settings), other) == binding_spec(
                *old(settings),
                other,
            ),
{
    match action {
        ShortcutAction::ReadPauseResume => settings.read_pause_resume = binding,
        ShortcutAction::ReadStart => settings.read_start = binding,
        ShortcutAction::ReadPreviousSentence => settings.read_previous_sentence = binding,
        ShortcutAction::ReadNextSentence => settings.read_next_sentence = binding,
        ShortcutAction::ReadStop => settings.read_stop = binding,
        ShortcutAction::ExecuteFile => settings.execute_file = binding,
        ShortcutAction::Audiobook => settings.audiobook = binding,
        ShortcutAction::BatchAudiobooks => settings.batch_audiobooks = binding,
        ShortcutAction::RecordPodcast => settings.record_podcast = binding,
        ShortcutAction::Dictation => settings.dictation = binding,
        ShortcutAction::ConvertAudio => settings.convert_audio = binding,
        ShortcutAction::OpenRss => settings.open_rss = binding,
        ShortcutAction::OpenPodcasts => settings.open_podcasts = binding,
        ShortcutAction::OpenPathsNavigation => settings.open_paths_navigation = binding,
        ShortcutAction::OpenRadio => settings.open_radio = binding,
        ShortcutAction::OpenCalendar => settings.open_calendar = binding,
        ShortcutAction::OpenWeather => settings.open_weather = binding,
        ShortcutAction::OpenCinema => settings.open_cinema = binding,
        ShortcutAction::OpenDictionary => settings.open_dictionary = binding,
        ShortcutAction::OpenOptions => settings.open_options = binding,
        ShortcutAction::OpenTerminal => settings.open_terminal = binding,
        ShortcutAction::ImportWikipedia => settings.import_wikipedia = binding,
        ShortcutAction::ImportYoutube => settings.import_youtube = binding,
        ShortcutAction::Find => settings.find = binding,
        ShortcutAction::QuoteLines => settings.quote_lines = binding,
        ShortcutAction::UnquoteLines => settings.unquote_lines = binding,
        ShortcutAction::MediaPrev => settings.media_prev = binding,
        ShortcutAction::MediaNext => settings.media_next = binding,
        ShortcutAction::ChapterPrev => settings.chapter_prev = binding,
        ShortcutAction::ChapterNext => settings.chapter_next = binding,
    }
}

/// Two shortcut settings that bind every action alike are the same settings.
pub proof fn lemma_bindings_determine_settings(a: ShortcutSettings, b: ShortcutSettings)
    requires
        forall|action: ShortcutAction| binding_spec(a, action) == binding_spec(b, action),
    ensures
        a == b,
{
    assert(binding_spec(a, ShortcutAction::ReadPauseResume) == binding_spec(b, ShortcutAction::ReadPauseResume));
    assert(binding_spec(a, ShortcutAction::ReadStart) == binding_spec(b, ShortcutAction::ReadStart));
    assert(binding_spec(a, ShortcutAction::ReadPreviousSentence) == binding_spec(b, ShortcutAction::ReadPreviousSentence));
    assert(binding_spec(a, ShortcutAction::ReadNextSentence) == binding_spec(b, ShortcutAction::ReadNextSentence));
    assert(binding_spec(a, ShortcutAction::ReadStop) == binding_spec(b, ShortcutAction::ReadStop));
    assert(binding_spec(a, ShortcutAction::ExecuteFile) == binding_spec(b, ShortcutAction::ExecuteFile));
    assert(binding_spec(a, ShortcutAction::Audiobook) == binding_spec(b, ShortcutAction::Audiobook));
    assert(binding_spec(a, ShortcutAction::BatchAudiobooks) == binding_spec(b, ShortcutAction::BatchAudiobooks));
    assert(binding_spec(a, ShortcutAction::RecordPodcast) == binding_spec(b, ShortcutAction::RecordPodcast));
    assert(binding_spec(a, ShortcutAction::Dictation) == binding_spec(b, ShortcutAction::Dictation));
    assert(binding_spec(a, ShortcutAction::ConvertAudio) == binding_spec(b, ShortcutAction::ConvertAudio));
    assert(binding_spec(a, ShortcutAction::OpenRss) == binding_spec(b, ShortcutAction::OpenRss));
    assert(binding_spec(a, ShortcutAction::OpenPodcasts) == binding_spec(b, ShortcutAction::OpenPodcasts));
    assert(binding_spec(a, ShortcutAction::OpenPathsNavigation) == binding_spec(b, ShortcutAction::OpenPathsNavigation));
    assert(binding_spec(a, ShortcutAction::OpenRadio) == binding_spec(b, ShortcutAction::OpenRadio));
    assert(binding_spec(a, ShortcutAction::OpenCalendar) == binding_spec(b, ShortcutAction::OpenCalendar));
    assert(binding_spec(a, ShortcutAction::OpenWeather) == binding_spec(b, ShortcutAction::OpenWeather));
    assert(binding_spec(a, ShortcutAction::OpenCinema) == binding_spec(b, ShortcutAction::OpenCinema));
    assert(binding_spec(a, ShortcutAction::OpenDictionary) == binding_spec(b, ShortcutAction::OpenDictionary));
    assert(binding_spec(a, ShortcutAction::OpenOptions) == binding_spec(b, ShortcutAction::OpenOptions));
    assert(binding_spec(a, ShortcutAction::OpenTerminal) == binding_spec(b, ShortcutAction::OpenTerminal));
    assert(binding_spec(a, ShortcutAction::ImportWikipedia) == binding_spec(b, ShortcutAction::ImportWikipedia));
    assert(binding_spec(a, ShortcutAction::ImportYoutube) == binding_spec(b, ShortcutAction::ImportYoutube));
    assert(binding_spec(a, ShortcutAction::Find) == binding_spec(b, ShortcutAction::Find));
    assert(binding_spec(a, ShortcutAction::QuoteLines) == binding_spec(b, ShortcutAction::QuoteLines));
    assert(binding_spec(a, ShortcutAction::UnquoteLines) == binding_spec(b, ShortcutAction::UnquoteLines));
    assert(binding_spec(a, ShortcutAction::MediaPrev) == binding_spec(b, ShortcutAction::MediaPrev));
    assert(binding_spec(a, ShortcutAction::MediaNext) == binding_spec(b, ShortcutAction::MediaNext));
    assert(binding_spec(a, ShortcutAction::ChapterPrev) == binding_spec(b, ShortcutAction::ChapterPrev));
    assert(binding_spec(a, ShortcutAction::ChapterNext) == binding_spec(b, ShortcutAction::ChapterNext));
}

/// The shortcuts of the menus, which no action may take.
pub open spec fn fixed_bindings_spec() -> Seq<ShortcutBinding> {
    seq![
        ShortcutBinding { ctrl: true, shift: false, alt: false, key: 0x4e },
        ShortcutBinding { ctrl: true, shift: false, alt: false, key: 0x4f },
        ShortcutBinding { ctrl: true, shift: false, alt: false, key: 0x53 },
        ShortcutBinding { ctrl: true, shift: true, alt: false, key: 0x53 },
        ShortcutBinding { ctrl: true, shift: false, alt: false, key: 0x50 },
        ShortcutBinding { ctrl: true, shift: false, alt: false, key: 0x57 },
        ShortcutBinding { ctrl: true, shift: true, alt: false, key: 0x57 },
        ShortcutBinding { ctrl: true, shift: true, alt: false, key: 0x46 },
        ShortcutBinding { ctrl: true, shift: true, alt: false, key: 0x4d },
        ShortcutBinding { ctrl: true, shift: true, alt: false, key: 0x49 },
        ShortcutBinding { ctrl: true, shift: true, alt: false, key: 0x48 },
        ShortcutBinding { ctrl: false, shift: true, alt: true, key: 0x4f },
        ShortcutBinding { ctrl: false, shift: true, alt: true, key: 0x4b },
        ShortcutBinding { ctrl: false, shift: true, alt: true, key: 0x5a },
        ShortcutBinding { ctrl: true, shift: true, alt: false, key: 0x0D },
        ShortcutBinding { ctrl: false, shift: false, alt: false, key: 0x72 },
        ShortcutBinding { ctrl: false, shift: true, alt: false, key: 0x72 },
        ShortcutBinding { ctrl: true, shift: false, alt: false, key: 0x48 },
        ShortcutBinding { ctrl: true, shift: false, alt: false, key: 0x4a },
        ShortcutBinding { ctrl: true, shift: false, alt: false, key: 0x41 },
        ShortcutBinding { ctrl: true, shift: true, alt: false, key: 0xBE },
        ShortcutBinding { ctrl: true, shift: false, alt: false, key: 0xBE },
        ShortcutBinding { ctrl: true, shift: true, alt: false, key: 0xBC },
        ShortcutBinding { ctrl: true, shift: true, alt: false, key: 0x4a },
        ShortcutBinding { ctrl: false, shift: true, alt: true, key: 0x4a },
        ShortcutBinding { ctrl: true, shift: true, alt: true, key: 0x59 },
        ShortcutBinding { ctrl: true, shift: false, alt: false, key: 0x44 },
        ShortcutBinding { ctrl: true, shift: true, alt: false, key: 0x43 },
        ShortcutBinding { ctrl: false, shift: true, alt: true, key: 0x48 },
        ShortcutBinding { ctrl: false, shift: true, alt: true, key: 0x44 },
        ShortcutBinding { ctrl: true, shift: false, alt: false, key: 0x09 },
        ShortcutBinding { ctrl: false, shift: true, alt: false, key: 0x22 },
        ShortcutBinding { ctrl: false, shift: true, alt: false, key: 0x21 },
        ShortcutBinding { ctrl: true, shift: true, alt: false, key: 0x47 },
        ShortcutBinding { ctrl: true, shift: true, alt: false, key: 0x4c },
        ShortcutBinding { ctrl: true, shift: false, alt: false, key: 0x42 },
        ShortcutBinding { ctrl: false, shift: true, alt: true, key: 0x53 },
        ShortcutBinding { ctrl: false, shift: true, alt: true, key: 0x54 },
        ShortcutBinding { ctrl: false, shift: true, alt: true, key: 0x43 },
        ShortcutBinding { ctrl: false, shift: true, alt: true, key: 0x45 },
        ShortcutBinding { ctrl: false, shift: true, alt: true, key: 0x4c },
        ShortcutBinding { ctrl: false, shift: true, alt: true, key: 0x41 },
        ShortcutBinding { ctrl: false, shift: true, alt: true, key: 0x42 },
        ShortcutBinding { ctrl: false, shift: true, alt: true, key: 0x55 },
        ShortcutBinding { ctrl: false, shift: true, alt: true, key: 0x49 },
        ShortcutBinding { ctrl: true, shift: true, alt: false, key: 0x56 },
    ]
}

/// The menu labels that name the fixed shortcuts.
#[derive(Clone, Debug)]
pub struct MenuLabels {
    pub file_new: String,
    pub file_open: String,
    pub file_save: String,
    pub file_save_all: String,
    pub file_print: String,
    pub file_close: String,
    pub window_close_others: String,
    pub edit_find_in_files: String,
    pub edit_strip_markdown: String,
    pub menu_create_audio_description: String,
    pub edit_hard_line_break: String,
    pub edit_order_items: String,
    pub edit_keep_unique_items: String,
    pub edit_reverse_items: String,
    pub edit_normalize_whitespace: String,
    pub edit_find_next: String,
    pub edit_find_previous: String,
    pub edit_replace: String,
    pub edit_goto_line: String,
    pub edit_select_all: String,
    pub edit_indent: String,
    pub edit_outdent: String,
    pub edit_join_lines: String,
    pub edit_join_wrapped_lines: String,
    pub edit_text_stats: String,
    pub edit_remove_duplicate_lines: String,
    pub edit_remove_duplicate_consecutive_lines: String,
    pub edit_clean_eol_hyphens: String,
    pub menu_dictionary_lookup: String,
    pub insert_goto_next_bookmark: String,
    pub insert_goto_prev_bookmark: String,
    pub manage_bookmarks: String,
    pub insert_clear_bookmarks: String,
    pub insert_bookmark: String,
    pub menu_stream_audio: String,
    pub menu_rai_audiodescrizioni: String,
    pub menu_bdciechi: String,
    pub menu_gutenberg: String,
    pub menu_internet_archive: String,
    pub menu_librivox: String,
}

/// The label of each fixed shortcut, in the order of `fixed_bindings_spec`.
pub open spec fn fixed_labels_spec(menu: MenuLabels, catalog: Catalog, language: Language) -> Seq<Seq<char>> {
    seq![
        menu.file_new@,
        menu.file_open@,
        menu.file_save@,
        menu.file_save_all@,
        menu.file_print@,
        menu.file_close@,
        menu.window_close_others@,
        menu.edit_find_in_files@,
        menu.edit_strip_markdown@,
        menu.menu_create_audio_description@,
        menu.edit_hard_line_break@,
        menu.edit_order_items@,
        menu.edit_keep_unique_items@,
        menu.edit_reverse_items@,
        menu.edit_normalize_whitespace@,
        menu.edit_find_next@,
        menu.edit_find_previous@,
        menu.edit_replace@,
        menu.edit_goto_line@,
        menu.edit_select_all@,
        menu.edit_indent@,
        catalog.translate(language, "edit.insert_ellipsis"@),
        menu.edit_outdent@,
        menu.edit_join_lines@,
        menu.edit_join_wrapped_lines@,
        menu.edit_text_stats@,
        menu.edit_remove_duplicate_lines@,
        menu.edit_remove_duplicate_consecutive_lines@,
        menu.edit_clean_eol_hyphens@,
        menu.menu_dictionary_lookup@,
        "Next tab\tCtrl+Tab"@,
        menu.insert_goto_next_bookmark@,
        menu.insert_goto_prev_bookmark@,
        menu.manage_bookmarks@,
        menu.insert_clear_bookmarks@,
        menu.insert_bookmark@,
        menu.menu_stream_audio@,
        catalog.translate(language, "playback.transcribe_current"@),
        catalog.translate(language, "playback.transcribe_current_folder"@) + "\tAlt+Shift+C"@,
        catalog.translate(language, "playback.download_episode"@),
        catalog.translate(language, "playback.chapter_list"@),
        if menu.menu_rai_audiodescrizioni@.len() != 0 { menu.menu_rai_audiodescrizioni@ } else { "Rai audiodescrizioni\tAlt+Shift+A"@ },
        if menu.menu_bdciechi@.len() != 0 { menu.menu_bdciechi@ } else { "BDCiechi\tAlt+Shift+B"@ },
        menu.menu_gutenberg@,
        menu.menu_internet_archive@,
        menu.menu_librivox@,
    ]
}

/// The fixed shortcuts of the menus.
pub fn fixed_shortcut_bindings() -> (v: Vec<ShortcutBinding>)
    ensures
        v@ == fixed_bindings_spec(),
{
    let v = vec![
        ShortcutBinding::new(true, false, false, 0x4e),
        ShortcutBinding::new(true, false, false, 0x4f),
        ShortcutBinding::new(true, false, false, 0x53),
        ShortcutBinding::new(true, true, false, 0x53),
        ShortcutBinding::new(true, false, false, 0x50),
        ShortcutBinding::new(true, false, false, 0x57),
        ShortcutBinding::new(true, true, false, 0x57),
        ShortcutBinding::new(true, true, false, 0x46),
        ShortcutBinding::new(true, true, false, 0x4d),
        ShortcutBinding::new(true, true, false, 0x49),
        ShortcutBinding::new(true, true, false, 0x48),
        ShortcutBinding::new(false, true, true, 0x4f),
        ShortcutBinding::new(false, true, true, 0x4b),
        ShortcutBinding::new(false, true, true, 0x5a),
        ShortcutBinding::new(true, true, false, 0x0D),
        ShortcutBinding::new(false, false, false, 0x72),
        ShortcutBinding::new(false, true, false, 0x72),
        ShortcutBinding::new(true, false, false, 0x48),
        ShortcutBinding::new(true, false, false, 0x4a),
        ShortcutBinding::new(true, false, false, 0x41),
        ShortcutBinding::new(true, true, false, 0xBE),
        ShortcutBinding::new(true, false, false, 0xBE),
        ShortcutBinding::new(true, true, false, 0xBC),
        ShortcutBinding::new(true, true, false, 0x4a),
        ShortcutBinding::new(false, true, true, 0x4a),
        ShortcutBinding::new(true, true, true, 0x59),
        ShortcutBinding::new(true, false, false, 0x44),
        ShortcutBinding::new(true, true, false, 0x43),
        ShortcutBinding::new(false, true, true, 0x48),
        ShortcutBinding::new(false, true, true, 0x44),
        ShortcutBinding::new(true, false, false, 0x09),
        ShortcutBinding::new(false, true, false, 0x22),
        ShortcutBinding::new(false, true, false, 0x21),
        ShortcutBinding::new(true, true, false, 0x47),
        ShortcutBinding::new(true, true, false, 0x4c),
        ShortcutBinding::new(true, false, false, 0x42),
        ShortcutBinding::new(false, true, true, 0x53),
        ShortcutBinding::new(false, true, true, 0x54),
        ShortcutBinding::new(false, true, true, 0x43),
        ShortcutBinding::new(false, true, true, 0x45),
        ShortcutBinding::new(false, true, true, 0x4c),
        ShortcutBinding::new(false, true, true, 0x41),
        ShortcutBinding::new(false, true, true, 0x42),
        ShortcutBinding::new(false, true, true, 0x55),
        ShortcutBinding::new(false, true, true, 0x49),
        ShortcutBinding::new(true, true, false, 0x56),
    ];
    assert(v@ =~= fixed_bindings_spec());
    v
}

/// The labels of the fixed shortcuts, in the order of `fixed_shortcut_bindings`.
pub fn fixed_shortcut_labels(menu: &MenuLabels, catalog: &Catalog, language: Language) -> (v: Vec<
    String,
>)
    ensures
        string_views(v@) == fixed_labels_spec(*menu, *catalog, language),
{
    let mut v: Vec<String> = Vec::new();
    v.push(menu.file_new.clone());
    v.push(menu.file_open.clone());
    v.push(menu.file_save.clone());
    v.push(menu.file_save_all.clone());
    v.push(menu.file_print.clone());
    v.push(menu.file_close.clone());
    v.push(menu.window_close_others.clone());
    v.push(menu.edit_find_in_files.clone());
    v.push(menu.edit_strip_markdown.clone());
    v.push(menu.menu_create_audio_description.clone());
    v.push(menu.edit_hard_line_break.clone());
    v.push(menu.edit_order_items.clone());
    v.push(menu.edit_keep_unique_items.clone());
    v.push(menu.edit_reverse_items.clone());
    v.push(menu.edit_normalize_whitespace.clone());
    v.push(menu.edit_find_next.clone());
    v.push(menu.edit_find_previous.clone());
    v.push(menu.edit_replace.clone());
    v.push(menu.edit_goto_line.clone());
    v.push(menu.edit_select_all.clone());
    v.push(menu.edit_indent.clone());
    v.push(catalog.tr(language, "edit.insert_ellipsis"));
    v.push(menu.edit_outdent.clone());
    v.push(menu.edit_join_lines.clone());
    v.push(menu.edit_join_wrapped_lines.clone());
    v.push(menu.edit_text_stats.clone());
    v.push(menu.edit_remove_duplicate_lines.clone());
    v.push(menu.edit_remove_duplicate_consecutive_lines.clone());
    v.push(menu.edit_clean_eol_hyphens.clone());
    v.push(menu.menu_dictionary_lookup.clone());
    v.push("Next tab\tCtrl+Tab".to_owned());
    v.push(menu.insert_goto_next_bookmark.clone());
    v.push(menu.insert_goto_prev_bookmark.clone());
    v.push(menu.manage_bookmarks.clone());
    v.push(menu.insert_clear_bookmarks.clone());
    v.push(menu.insert_bookmark.clone());
    v.push(menu.menu_stream_audio.clone());
    v.push(catalog.tr(language, "playback.transcribe_current"));
    v.push(concat_str(catalog.tr(language, "playback.transcribe_current_folder").as_str(), "\tAlt+Shift+C"));
    v.push(catalog.tr(language, "playback.download_episode"));
    v.push(catalog.tr(language, "playback.chapter_list"));
    v.push(if !menu.menu_rai_audiodescrizioni.as_str().is_empty() { menu.menu_rai_audiodescrizioni.clone() } else { "Rai audiodescrizioni\tAlt+Shift+A".to_owned() });
    v.push(if !menu.menu_bdciechi.as_str().is_empty() { menu.menu_bdciechi.clone() } else { "BDCiechi\tAlt+Shift+B".to_owned() });
    v.push(menu.menu_gutenberg.clone());
    v.push(menu.menu_internet_archive.clone());
    v.push(menu.menu_librivox.clone());
    let ghost spec_labels = fixed_labels_spec(*menu, *catalog, language);
    assert(string_views(v@) =~= spec_labels);
    v
}

// ---------------------------------------------------------------------------
// Plain labels
// ---------------------------------------------------------------------------

/// `s` up to its first `c`; all of `s` when it has none (`split_once(c)`).
pub open spec fn before_char_spec(s: Seq<char>, c: char) -> Seq<char>
    decreases s.len(),
{
    if s.len() == 0 {
        s
    } else if s[0] == c {
        Seq::empty()
    } else {
        seq![s[0]] + before_char_spec(s.drop_first(), c)
    }
}

/// The start of the last occurrence of `p` in `s`, if any.
pub open spec fn last_match_spec(s: Seq<char>, p: Seq<char>) -> Option<int>
    decreases s.len(),
{
    if s.len() < p.len() {
        None
    } else if s.subrange(s.len() - p.len(), s.len() as int) == p {
        Some(s.len() - p.len())
    } else if s.len() == 0 {
        None
    } else {
        last_match_spec(s.drop_last(), p)
    }
}

/// `s` up to the last occurrence of `p`; all of `s` when it has none
/// (`rsplit_once(p)`).
pub open spec fn before_last_spec(s: Seq<char>, p: Seq<char>) -> Seq<char> {
    match last_match_spec(s, p) {
        Some(k) => s.subrange(0, k),
        None => s,
    }
}

/// `s` with menu mnemonics removed: a lone `&` is dropped and `&&` becomes `&`.
pub open spec fn strip_mnemonics_spec(s: Seq<char>) -> Seq<char>
    decreases s.len(),
{
    if s.len() == 0 {
        s
    } else if s[0] == '&' {
        if s.len() > 1 && s[1] == '&' {
            seq!['&'] + strip_mnemonics_spec(s.subrange(2, s.len() as int))
        } else {
            strip_mnemonics_spec(s.drop_first())
        }
    } else {
        seq![s[0]] + strip_mnemonics_spec(s.drop_first())
    }
}

/// A menu label as plain text: the part before a tab, without a trailing
/// ` Alt+...` accelerator, and without mnemonic markers.
pub open spec fn plain_label_spec(label: Seq<char>) -> Seq<char> {
    strip_mnemonics_spec(before_last_spec(before_char_spec(label, '\t'), " Alt+"@))
}

/// The characters of `v` before the first `c`.
fn before_char(v: &[char], c: char) -> (r: Vec<char>)
    ensures
        r@ == before_char_spec(v@, c),
{
    let mut out: Vec<char> = Vec::new();
    let mut i: usize = 0;
    assert(v@.subrange(0, v@.len() as int) =~= v@);
    while i < v.len() && v[i] != c
        invariant
            i <= v@.len(),
            before_char_spec(v@, c) == out@ + before_char_spec(v@.subrange(i as int, v@.len() as int), c),
        decreases v@.len() - i,
    {
        proof {
            let rest = v@.subrange(i as int, v@.len() as int);
            assert(rest.drop_first() =~= v@.subrange(i + 1, v@.len() as int));
            assert(rest[0] == v@[i as int]);
            assert(out@ + (seq![v@[i as int]] + before_char_spec(rest.drop_first(), c)) =~= out@.push(
                v@[i as int],
            ) + before_char_spec(rest.drop_first(), c));
        }
        out.push(v[i]);
        i += 1;
    }
    proof {
        let rest = v@.subrange(i as int, v@.len() as int);
        if i < v@.len() {
            assert(rest[0] == v@[i as int]);
        }
        assert(before_char_spec(rest, c) =~= Seq::<char>::empty());
        assert(out@ + Seq::<char>::empty() =~= out@);
    }
    out
}

/// Whether `p` occurs in `v` at `start`.
fn matches_at(v: &[char], start: usize, p: &[char]) -> (r: bool)
    requires
        start + p@.len() <= v@.len(),
    ensures
        r == (v@.subrange(start as int, start + p@.len()) == p@),
{
    let n = v.len();
    let mut j: usize = 0;
    while j < p.len()
        invariant
            n == v@.len(),
            start + p@.len() <= v@.len(),
            j <= p@.len(),
            forall|k: int| 0 <= k < j ==> v@[start + k] == p@[k],
        decreases p@.len() - j,
    {
        assert(start + j < v@.len());
        if v[start + j] != p[j] {
            proof {
                assert(v@.subrange(start as int, start + p@.len())[j as int] != p@[j as int]);
            }
            return false;
        }
        j += 1;
    }
    proof {
        assert(v@.subrange(start as int, start + p@.len()) =~= p@);
    }
    true
}

/// The start of the last occurrence of `p` in `v`.
fn last_match(v: &[char], p: &[char]) -> (r: Option<usize>)
    ensures
        match r {
            Some(k) => last_match_spec(v@, p@) == Some(k as int),
            None => last_match_spec(v@, p@) is None,
        },
{
    let mut end: usize = v.len();
    assert(v@.subrange(0, v@.len() as int) =~= v@);
    while end >= p.len()
        invariant
            end <= v@.len(),
            last_match_spec(v@, p@) == last_match_spec(v@.subrange(0, end as int), p@),
        decreases end,
    {
        let start = end - p.len();
        let ghost s = v@.subrange(0, end as int);
        proof {
            assert(s.subrange(s.len() - p@.len(), s.len() as int) =~= v@.subrange(
                start as int,
                start + p@.len(),
            ));
        }
        if matches_at(v, start, p) {
            return Some(start);
        }
        if end == 0 {
            proof {
                assert(s.subrange(0, 0) =~= p@);
            }
            return None;
        }
        proof {
            assert(s.drop_last() =~= v@.subrange(0, end - 1));
        }
        end -= 1;
    }
    None
}

/// `v` with mnemonic markers removed.
fn strip_mnemonics(v: &[char]) -> (r: Vec<char>)
    ensures
        r@ == strip_mnemonics_spec(v@),
{
    let n = v.len();
    let mut out: Vec<char> = Vec::new();
    let mut i: usize = 0;
    assert(v@.subrange(0, n as int) =~= v@);
    while i < n
        invariant
            n == v@.len(),
            i <= n,
            strip_mnemonics_spec(v@) == out@ + strip_mnemonics_spec(v@.subrange(i as int, n as int)),
        decreases n - i,
    {
        let ghost rest = v@.subrange(i as int, n as int);
        assert(rest[0] == v@[i as int]);
        if v[i] == '&' {
            if i + 1 < n && v[i + 1] == '&' {
                proof {
                    assert(rest[1] == v@[i + 1]);
                    assert(rest.subrange(2, rest.len() as int) =~= v@.subrange(i + 2, n as int));
                    assert(out@ + (seq!['&'] + strip_mnemonics_spec(rest.subrange(2, rest.len() as int)))
                        =~= out@.push('&') + strip_mnemonics_spec(v@.subrange(i + 2, n as int)));
                }
                out.push('&');
                i += 2;
            } else {
                proof {
                    if i + 1 < n {
                        assert(rest[1] == v@[i + 1]);
                    }
                    assert(rest.drop_first() =~= v@.subrange(i + 1, n as int));
                }
                i += 1;
            }
        } else {
            proof {
                assert(rest.drop_first() =~= v@.subrange(i + 1, n as int));
                assert(out@ + (seq![v@[i as int]] + strip_mnemonics_spec(rest.drop_first())) =~= out@.push(
                    v@[i as int],
                ) + strip_mnemonics_spec(rest.drop_first()));
            }
            out.push(v[i]);
            i += 1;
        }
    }
    proof {
        assert(strip_mnemonics_spec(v@.subrange(n as int, n as int)) =~= Seq::<char>::empty());
        assert(out@ + Seq::<char>::empty() =~= out@);
    }
    out
}

/// A menu label as plain text (see `plain_label_spec`).
pub fn plain_shortcut_action_label(label: &str) -> (r: String)
    ensures
        r@ == plain_label_spec(label@),
{
    let v = chars_of(label);
    let base = before_char(v.as_slice(), '\t');
    let pattern = chars_of(" Alt+");
    let base2: Vec<char> = match last_match(base.as_slice(), pattern.as_slice()) {
        Some(k) => {
            proof {
                lemma_last_match_bounds(base@, pattern@);
            }
            let mut t: Vec<char> = Vec::new();
            let mut i: usize = 0;
            while i < k
                invariant
                    k <= base@.len(),
                    i <= k,
                    t@ == base@.subrange(0, i as int),
                decreases k - i,
            {
                t.push(base[i]);
                i += 1;
                proof {
                    assert(base@.subrange(0, i as int) =~= base@.subrange(0, i - 1).push(base@[i - 1]));
                }
            }
            t
        },
        None => base,
    };
    proof {
        match last_match_spec(before_char_spec(label@, '\t'), " Alt+"@) {
            Some(k) => {
                lemma_last_match_bounds(before_char_spec(label@, '\t'), " Alt+"@);
            },
            None => {},
        }
    }
    let r = strip_mnemonics(base2.as_slice());
    string_from_chars(r.as_slice())
}

/// A match found by `last_match_spec` lies inside the string.
pub proof fn lemma_last_match_bounds(s: Seq<char>, p: Seq<char>)
    ensures
        last_match_spec(s, p) matches Some(k) ==> 0 <= k && k + p.len() <= s.len(),
    decreases s.len(),
{
    if s.len() >= p.len() && s.subrange(s.len() - p.len(), s.len() as int) != p && s.len() > 0 {
        lemma_last_match_bounds(s.drop_last(), p);
    }
}

// ---------------------------------------------------------------------------
// Labels
// ---------------------------------------------------------------------------

/// The name of an action as the shortcut list shows it.
pub open spec fn action_label_spec(catalog: Catalog, language: Language, action: ShortcutAction) -> Seq<char> {
    match action {
        ShortcutAction::ChapterPrev => plain_label_spec(catalog.translate(language, "playback.chapter_prev"@)),
        ShortcutAction::ChapterNext => plain_label_spec(catalog.translate(language, "playback.chapter_next"@)),
        _ => catalog.translate(language, action_key_spec(action)),
    }
}

/// The name of `action` as the shortcut list shows it.
pub fn shortcut_action_label(catalog: &Catalog, language: Language, action: ShortcutAction) -> (r: String)
    ensures
        r@ == action_label_spec(*catalog, language, action),
{
    match action {
        ShortcutAction::ReadPreviousSentence => catalog.tr(language, "file.read_previous_sentence"),
        ShortcutAction::ReadNextSentence => catalog.tr(language, "file.read_next_sentence"),
        ShortcutAction::ChapterPrev => {
            plain_shortcut_action_label(catalog.tr(language, "playback.chapter_prev").as_str())
        },
        ShortcutAction::ChapterNext => {
            plain_shortcut_action_label(catalog.tr(language, "playback.chapter_next").as_str())
        },
        _ => catalog.tr(language, shortcut_action_i18n_key(action)),
    }
}

/// The title of the shortcuts tab.
pub fn shortcut_tab_title(catalog: &Catalog, language: Language) -> (r: String)
    ensures
        r@ == catalog.translate(language, "options.shortcuts.tab"@),
{
    catalog.tr(language, "options.shortcuts.tab")
}

/// The label of the action list.
pub fn shortcuts_label_action(catalog: &Catalog, language: Language) -> (r: String)
    ensures
        r@ == catalog.translate(language, "options.shortcuts.label_action"@),
{
    catalog.tr(language, "options.shortcuts.label_action")
}

/// The label of the key combination field.
pub fn shortcuts_label_value(catalog: &Catalog, language: Language) -> (r: String)
    ensures
        r@ == catalog.translate(language, "options.shortcuts.label_combination"@),
{
    catalog.tr(language, "options.shortcuts.label_combination")
}

/// The label of the button that changes a shortcut.
pub fn shortcuts_change_label(catalog: &Catalog, language: Language) -> (r: String)
    ensures
        r@ == catalog.translate(language, "options.shortcuts.button_change"@),
{
    catalog.tr(language, "options.shortcuts.button_change")
}

/// The label of the button that restores a shortcut's default.
pub fn shortcuts_reset_label(catalog: &Catalog, language: Language) -> (r: String)
    ensures
        r@ == catalog.translate(language, "options.shortcuts.button_default"@),
{
    catalog.tr(language, "options.shortcuts.button_default")
}

/// The label of the button that restores every shortcut's default.
pub fn shortcuts_reset_all_label(catalog: &Catalog, language: Language) -> (r: String)
    ensures
        r@ == catalog.translate(language, "options.shortcuts.button_reset_all"@),
{
    catalog.tr(language, "options.shortcuts.button_reset_all")
}

// ---------------------------------------------------------------------------
// Conflicts
// ---------------------------------------------------------------------------

/// The first action other than `current`, in list order, that `settings`
/// binds to `candidate`.
pub fn find_shortcut_conflict(
    settings: &ShortcutSettings,
    current: ShortcutAction,
    candidate: ShortcutBinding,
) -> (r: Option<ShortcutAction>)
    ensures
        match r {
            Some(a) => {
                &&& a != current
                &&& binding_spec(*settings, a) == candidate
                &&& forall|b: ShortcutAction|
                    action_index_spec(b) < action_index_spec(a) && b != current ==> binding_spec(
                        *settings,
                        b,
                    ) != candidate
            },
            None => forall|b: ShortcutAction|
                b != current ==> binding_spec(*settings, b) != candidate,
        },
{
    let mut idx: usize = 0;
    while idx < 30
        invariant
            idx <= 30,
            forall|b: ShortcutAction|
                action_index_spec(b) < idx && b != current ==> binding_spec(*settings, b)
                    != candidate,
        decreases 30 - idx,
    {
        let a = match shortcut_action_at(idx) {
            Some(a) => a,
            None => {
                return None;
            },
        };
        proof {
            assert(action_index_spec(a) == idx) by {
                assert(forall|b: ShortcutAction| #[trigger] action_at_spec(action_index_spec(b) as int) == Some(b));
            }
        }
        if a != current && shortcut_binding_for_action(settings, a) == candidate {
            return Some(a);
        }
        idx += 1;
    }
    proof {
        assert forall|b: ShortcutAction| b != current implies binding_spec(*settings, b) != candidate by {
            lemma_action_index_round_trip(b);
        }
    }
    None
}

/// The first position of `candidate` among the fixed shortcuts.
pub fn fixed_shortcut_conflict_index(candidate: ShortcutBinding) -> (r: Option<usize>)
    ensures
        match r {
            Some(k) => {
                &&& k < fixed_bindings_spec().len()
                &&& fixed_bindings_spec()[k as int] == candidate
                &&& forall|j: int| 0 <= j < k ==> fixed_bindings_spec()[j] != candidate
            },
            None => !fixed_bindings_spec().contains(candidate),
        },
{
    let fixed = fixed_shortcut_bindings();
    let mut k: usize = 0;
    while k < fixed.len()
        invariant
            fixed@ == fixed_bindings_spec(),
            k <= fixed@.len(),
            forall|j: int| 0 <= j < k ==> fixed@[j] != candidate,
        decreases fixed@.len() - k,
    {
        if fixed[k] == candidate {
            return Some(k);
        }
        k += 1;
    }
    None
}

/// The plain label of the first fixed shortcut equal to `candidate`, if any.
pub fn find_fixed_shortcut_conflict_label(
    menu: &MenuLabels,
    catalog: &Catalog,
    language: Language,
    candidate: ShortcutBinding,
) -> (r: Option<String>)
    ensures
        r is None <==> !fixed_bindings_spec().contains(candidate),
        r matches Some(label) ==> exists|k: int|
            0 <= k < fixed_bindings_spec().len() && fixed_bindings_spec()[k] == candidate
                && (forall|j: int| 0 <= j < k ==> fixed_bindings_spec()[j] != candidate)
                && label@ == plain_label_spec(fixed_labels_spec(*menu, *catalog, language)[k]),
{
    match fixed_shortcut_conflict_index(candidate) {
        Some(k) => {
            let labels = fixed_shortcut_labels(menu, catalog, language);
            proof {
                assert(fixed_bindings_spec().len() == 46);
                assert(fixed_labels_spec(*menu, *catalog, language).len() == 46);
                assert(string_views(labels@).len() == labels@.len());
                assert(string_views(labels@)[k as int] == labels@[k as int]@);
            }
            Some(plain_shortcut_action_label(labels[k].as_str()))
        },
        None => None,
    }
}

// ---------------------------------------------------------------------------
// Capturing a shortcut
// ---------------------------------------------------------------------------

/// Whether `key` is the virtual key of Shift, Ctrl or Alt (either side).
pub open spec fn is_modifier_vk_spec(key: u16) -> bool {
    key == 0x10 || key == 0x11 || key == 0x12 || (0xA0 <= key <= 0xA5)
}

/// Whether `key` is the virtual key of Shift, Ctrl or Alt (either side).
pub fn is_modifier_vk(key: u16) -> (r: bool)
    ensures
        r == is_modifier_vk_spec(key),
{
    key == 0x10 || key == 0x11 || key == 0x12 || (0xA0 <= key && key <= 0xA5)
}

/// A modifier counts as held when either key-state reading has its high bit set.
pub open spec fn modifier_down_spec(key_state: i16, async_key_state: i16) -> bool {
    key_state < 0 || async_key_state < 0
}

/// Whether a modifier is held, from its `GetKeyState` and `GetAsyncKeyState` readings.
pub fn modifier_down(key_state: i16, async_key_state: i16) -> (r: bool)
    ensures
        r == modifier_down_spec(key_state, async_key_state),
{
    let high: i16 = -32768;
    let a = (key_state & high) != 0;
    let b = (async_key_state & high) != 0;
    assert(a == (key_state < 0)) by (bit_vector)
        requires
            a == ((key_state & high) != 0),
            high == -32768i16,
    ;
    assert(b == (async_key_state < 0)) by (bit_vector)
        requires
            b == ((async_key_state & high) != 0),
            high == -32768i16,
    ;
    a || b
}

/// Whether any of the modifiers, given by their two key-state readings, is held.
pub fn modifier_down_any(states: &[(i16, i16)]) -> (r: bool)
    ensures
        r == exists|i: int| 0 <= i < states@.len() && #[trigger] modifier_down_spec(states@[i].0, states@[i].1),
{
    let mut i: usize = 0;
    while i < states.len()
        invariant
            i <= states@.len(),
            forall|j: int| 0 <= j < i ==> !#[trigger] modifier_down_spec(states@[j].0, states@[j].1),
        decreases states@.len() - i,
    {
        let (a, b) = states[i];
        if modifier_down(a, b) {
            return true;
        }
        i += 1;
    }
    false
}

/// The binding a key press gives: lower-case letters count as upper-case.
pub open spec fn captured_binding_spec(key: u16, ctrl: bool, shift: bool, alt: bool) -> ShortcutBinding {
    ShortcutBinding {
        ctrl,
        shift,
        alt,
        key: if 0x61 <= key <= 0x7A { (key - 32) as u16 } else { key },
    }
}

/// What a key press does while the dialog waits for a new shortcut.
#[derive(Clone, Copy, Debug)]
pub enum ShortcutCaptureOutcome {
    /// Escape: waiting stops, the binding is kept.
    Cancelled,
    /// Tab: waiting stops and the focus moves on (backwards with Shift).
    CancelledMoveFocus { backwards: bool },
    /// Return, Space or a lone modifier: the key is swallowed and waiting goes on.
    Ignored,
    /// The combination belongs to another action: the error is shown, nothing
    /// changes, and waiting goes on.
    TakenByAction { action: ShortcutAction, binding: ShortcutBinding },
    /// The combination is a fixed shortcut of the menus (its position in the
    /// fixed list): the error is shown, nothing changes, and waiting goes on.
    TakenByMenu { index: usize, binding: ShortcutBinding },
    /// The combination is free: these settings hold it for the action, and
    /// waiting stops.
    Assigned { settings: ShortcutSettings },
}

/// The result of giving `action` the binding `c`: refused when another
/// action holds it (the first such action) or when it is a fixed shortcut
/// of the menus (the first such entry); otherwise the draft with `c` for
/// `action` and every other binding unchanged.
pub open spec fn assign_outcome_spec(
    draft: ShortcutSettings,
    action: ShortcutAction,
    c: ShortcutBinding,
    outcome: ShortcutCaptureOutcome,
) -> bool {
    if exists|b: ShortcutAction| b != action && binding_spec(draft, b) == c {
        match outcome {
            ShortcutCaptureOutcome::TakenByAction { action: a, binding } => {
                &&& binding == c
                &&& a != action
                &&& binding_spec(draft, a) == c
                &&& forall|b: ShortcutAction|
                    action_index_spec(b) < action_index_spec(a) && b != action ==> binding_spec(draft, b) != c
            },
            _ => false,
        }
    } else if fixed_bindings_spec().contains(c) {
        match outcome {
            ShortcutCaptureOutcome::TakenByMenu { index, binding } => {
                &&& binding == c
                &&& index < fixed_bindings_spec().len()
                &&& fixed_bindings_spec()[index as int] == c
                &&& forall|j: int| 0 <= j < index ==> fixed_bindings_spec()[j] != c
            },
            _ => false,
        }
    } else {
        match outcome {
            ShortcutCaptureOutcome::Assigned { settings } => {
                &&& binding_spec(settings, action) == c
                &&& forall|b: ShortcutAction| b != action ==> binding_spec(settings, b) == binding_spec(draft, b)
            },
            _ => false,
        }
    }
}

/// The result of pressing `key` (with the given modifiers) while a new
/// shortcut for `action` is awaited.
pub open spec fn capture_outcome_spec(
    draft: ShortcutSettings,
    action: ShortcutAction,
    key: u16,
    ctrl: bool,
    shift: bool,
    alt: bool,
    outcome: ShortcutCaptureOutcome,
) -> bool {
    if key == 0x1B {
        outcome is Cancelled
    } else if key == 0x09 {
        outcome == (ShortcutCaptureOutcome::CancelledMoveFocus { backwards: shift })
    } else if key == 0x0D || key == 0x20 || is_modifier_vk_spec(key) {
        outcome is Ignored
    } else {
        assign_outcome_spec(draft, action, captured_binding_spec(key, ctrl, shift, alt), outcome)
    }
}

/// Gives `action` the binding `binding` unless another action or a fixed
/// menu shortcut holds it (see `assign_outcome_spec`).
pub fn assign_shortcut_binding(draft: &ShortcutSettings, action: ShortcutAction, binding: ShortcutBinding) -> (outcome:
    ShortcutCaptureOutcome)
    ensures
        assign_outcome_spec(*draft, action, binding, outcome),
{
    match find_shortcut_conflict(draft, action, binding) {
        Some(a) => {
            return ShortcutCaptureOutcome::TakenByAction { action: a, binding };
        },
        None => {},
    }
    match fixed_shortcut_conflict_index(binding) {
        Some(k) => {
            return ShortcutCaptureOutcome::TakenByMenu { index: k, binding };
        },
        None => {},
    }
    let mut settings = *draft;
    set_shortcut_binding_for_action(&mut settings, action, binding);
    ShortcutCaptureOutcome::Assigned { settings }
}

/// Puts `action` back to its binding in `defaults`, unless another action or
/// a fixed menu shortcut holds that binding.
pub fn reset_shortcut_binding(draft: &ShortcutSettings, action: ShortcutAction, defaults: &ShortcutSettings) -> (outcome:
    ShortcutCaptureOutcome)
    ensures
        assign_outcome_spec(*draft, action, binding_spec(*defaults, action), outcome),
{
    let binding = shortcut_binding_for_action(defaults, action);
    assign_shortcut_binding(draft, action, binding)
}

/// Handles a key press while a new shortcut for `action` is awaited.
pub fn capture_shortcut_key(
    draft: &ShortcutSettings,
    action: ShortcutAction,
    key: u16,
    ctrl: bool,
    shift: bool,
    alt: bool,
) -> (outcome: ShortcutCaptureOutcome)
    ensures
        capture_outcome_spec(*draft, action, key, ctrl, shift, alt, outcome),
{
    if key == 0x1B {
        return ShortcutCaptureOutcome::Cancelled;
    }
    if key == 0x09 {
        return ShortcutCaptureOutcome::CancelledMoveFocus { backwards: shift };
    }
    if key == 0x0D || key == 0x20 || is_modifier_vk(key) {
        return ShortcutCaptureOutcome::Ignored;
    }
    let normalized: u16 = if 0x61 <= key && key <= 0x7A {
        key - 32
    } else {
        key
    };
    let candidate = ShortcutBinding::new(ctrl, shift, alt, normalized);
    assign_shortcut_binding(draft, action, candidate)
}

/// No two actions share a binding, and no action holds a fixed shortcut.
pub open spec fn bindings_distinct(settings: ShortcutSettings) -> bool {
    &&& forall|a: ShortcutAction, b: ShortcutAction|
        a != b ==> binding_spec(settings, a) != binding_spec(settings, b)
    &&& forall|a: ShortcutAction| !fixed_bindings_spec().contains(#[trigger] binding_spec(settings, a))
}

/// Giving an action a binding keeps the shortcuts free of duplicates: when
/// the draft has none, the settings that an assignment gives have none
/// either. This holds of a captured key and of a reset to the default.
pub proof fn lemma_assign_keeps_bindings_distinct(
    draft: ShortcutSettings,
    action: ShortcutAction,
    c: ShortcutBinding,
    outcome: ShortcutCaptureOutcome,
)
    requires
        bindings_distinct(draft),
        assign_outcome_spec(draft, action, c, outcome),
    ensures
        outcome matches ShortcutCaptureOutcome::Assigned { settings } ==> bindings_distinct(settings),
{
    if let ShortcutCaptureOutcome::Assigned { settings } = outcome {
        assert forall|a: ShortcutAction, b: ShortcutAction|
            a != b implies binding_spec(settings, a) != binding_spec(settings, b) by {
            if a == action {
                assert(binding_spec(settings, b) == binding_spec(draft, b));
            } else if b == action {
                assert(binding_spec(settings, a) == binding_spec(draft, a));
            }
        }
        assert forall|a: ShortcutAction| !fixed_bindings_spec().contains(#[trigger] binding_spec(settings, a)) by {
            if a != action {
                assert(binding_spec(settings, a) == binding_spec(draft, a));
            }
        }
    }
}

/// Capturing keeps the shortcuts free of duplicates: when the draft has none,
/// the settings that a capture assigns have none either.
pub proof fn lemma_capture_keeps_bindings_distinct(
    draft: ShortcutSettings,
    action: ShortcutAction,
    key: u16,
    ctrl: bool,
    shift: bool,
    alt: bool,
    outcome: ShortcutCaptureOutcome,
)
    requires
        bindings_distinct(draft),
        capture_outcome_spec(draft, action, key, ctrl, shift, alt, outcome),
    ensures
        outcome matches ShortcutCaptureOutcome::Assigned { settings } ==> bindings_distinct(settings),
{
    if outcome is Assigned {
        lemma_assign_keeps_bindings_distinct(draft, action, captured_binding_spec(key, ctrl, shift, alt), outcome);
    }
}

/// Setting an action's binding to the one it already has changes nothing.
pub proof fn lemma_set_current_binding_is_identity(
    before: ShortcutSettings,
    after: ShortcutSettings,
    action: ShortcutAction,
)
    requires
        binding_spec(after, action) == binding_spec(before, action),
        forall|other: ShortcutAction| other != action ==> binding_spec(after, other) == binding_spec(before, other),
    ensures
        after == before,
{
    lemma_bindings_determine_settings(after, before);
}

/// The tab that Ctrl+Tab (forwards) or Ctrl+Shift+Tab (backwards) selects,
/// wrapping around the seven tabs.
pub open spec fn next_tab_spec(current: int, backwards: bool) -> int {
    let next = if backwards { current - 1 } else { current + 1 };
    if next < 0 {
        6
    } else if next >= 7 {
        0
    } else {
        next
    }
}

/// The tab that Ctrl+Tab or Ctrl+Shift+Tab selects from tab `current`.
pub fn next_options_tab(current: i32, backwards: bool) -> (next: i32)
    ensures
        next == next_tab_spec(current as int, backwards),
        0 <= next < 7,
{
    let step: i64 = if backwards {
        -1
    } else {
        1
    };
    let next = current as i64 + step;
    if next < 0 {
        6
    } else if next >= 7 {
        0
    } else {
        next as i32
    }
}

} // verus!
