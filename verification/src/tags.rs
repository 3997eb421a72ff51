//! The voice and pause tags that the voice tab inserts into the document,
//! and the voice preview: which voice and which rate and volume they use.

use vstd::prelude::*;

use crate::model::VoiceInfo;
use crate::text::{parse_trimmed_u32, parse_u32_spec, trim_spec};
use crate::tuning::{clamp_spec, combo_value, edit_value_spec, read_tts_edit_value, read_tts_tuning_edit_value, tuning_edit_value_spec, TtsTuningLimits, limits_ordered};

verus! {

/// The command of the pause menu's 250 ms entry.
pub const PAUSE_TAG_MENU_250MS: usize = 6141;
/// The command of the pause menu's 500 ms entry.
pub const PAUSE_TAG_MENU_500MS: usize = 6142;
/// The command of the pause menu's 1 s entry.
pub const PAUSE_TAG_MENU_1S: usize = 6143;
/// The command of the pause menu's 2 s entry.
pub const PAUSE_TAG_MENU_2S: usize = 6144;
/// The command of the pause menu's custom entry.
pub const PAUSE_TAG_MENU_CUSTOM: usize = 6145;

/// What an entry of the pause menu chooses.
#[derive(Clone, Copy, Debug, PartialEq, Eq, Structural)]
pub enum PauseChoice {
    /// A pause of this many milliseconds.
    Milliseconds { ms: u32 },
    /// The length is asked for.
    Custom,
    /// The menu was closed without a choice.
    Dismissed,
}

/// What the pause menu's command `command` chooses.
pub fn pause_menu_choice(command: usize) -> (choice: PauseChoice)
    ensures
        choice == (if command == PAUSE_TAG_MENU_250MS {
            PauseChoice::Milliseconds { ms: 250 }
        } else if command == PAUSE_TAG_MENU_500MS {
            PauseChoice::Milliseconds { ms: 500 }
        } else if command == PAUSE_TAG_MENU_1S {
            PauseChoice::Milliseconds { ms: 1000 }
        } else if command == PAUSE_TAG_MENU_2S {
            PauseChoice::Milliseconds { ms: 2000 }
        } else if command == PAUSE_TAG_MENU_CUSTOM {
            PauseChoice::Custom
        } else {
            PauseChoice::Dismissed
        }),
{
    if command == PAUSE_TAG_MENU_250MS {
        PauseChoice::Milliseconds { ms: 250 }
    } else if command == PAUSE_TAG_MENU_500MS {
        PauseChoice::Milliseconds { ms: 500 }
    } else if command == PAUSE_TAG_MENU_1S {
        PauseChoice::Milliseconds { ms: 1000 }
    } else if command == PAUSE_TAG_MENU_2S {
        PauseChoice::Milliseconds { ms: 2000 }
    } else if command == PAUSE_TAG_MENU_CUSTOM {
        PauseChoice::Custom
    } else {
        PauseChoice::Dismissed
    }
}

/// The length of a custom pause typed as `text`: the trimmed text as a
/// whole number of milliseconds from `min` to `max`; none otherwise (the
/// dialog then says which lengths are allowed).
pub fn custom_pause_milliseconds(text: &str, min: u32, max: u32) -> (ms: Option<u32>)
    ensures
        ms == (match parse_u32_spec(trim_spec(text@)) {
            Some(n) => if min <= n <= max {
                Some(n)
            } else {
                None::<u32>
            },
            None => None,
        }),
{
    match parse_trimmed_u32(text) {
        Some(n) => if min <= n && n <= max {
            Some(n)
        } else {
            None
        },
        None => None,
    }
}

/// The short name of the voice on the selected line of a voice list (the
/// line's voice position `line_voice`): none when nothing is selected or the
/// position names no voice.
pub fn selected_voice_name(selection: isize, line_voice: usize, voices: &[VoiceInfo]) -> (name: Option<String>)
    ensures
        (selection < 0 || line_voice >= voices@.len()) ==> name is None,
        (selection >= 0 && line_voice < voices@.len()) ==> (name matches Some(n) && n@
            == voices@[line_voice as int].short_name@),
{
    if selection < 0 || line_voice >= voices.len() {
        None
    } else {
        Some(voices[line_voice].short_name.clone())
    }
}

/// The rate and volume of a preview or a voice tag: with manual tuning, read
/// from the fields (a rate of 0 and a volume of 100 when a field does not
/// read); otherwise the selected list values, kept within the engine's limits.
pub fn tag_rate_and_volume(
    manual: bool,
    rate_field: &str,
    volume_field: &str,
    rate_items: &[i32],
    rate_selection: isize,
    volume_items: &[i32],
    volume_selection: isize,
    limits: TtsTuningLimits,
) -> (r: (i32, i32))
    requires
        limits_ordered(limits),
        limits.rate_max <= i32::MAX - 100,
    ensures
        manual ==> r == (
            tuning_edit_value_spec(rate_field@, 0, limits.rate_min as int, limits.rate_max as int) as i32,
            edit_value_spec(volume_field@, 100, limits.volume_min as int, limits.volume_max as int) as i32,
        ),
        !manual ==> r == (
            clamp_spec(
                (if rate_selection < 0 {
                    0
                } else if rate_selection < rate_items@.len() {
                    rate_items@[rate_selection as int] as int
                } else {
                    -1
                }),
                limits.rate_min as int,
                limits.rate_max as int,
            ) as i32,
            clamp_spec(
                (if volume_selection < 0 {
                    0
                } else if volume_selection < volume_items@.len() {
                    volume_items@[volume_selection as int] as int
                } else {
                    -1
                }),
                limits.volume_min as int,
                limits.volume_max as int,
            ) as i32,
        ),
{
    if manual {
        let rate = read_tts_tuning_edit_value(rate_field, 0, limits.rate_min, limits.rate_max);
        let volume = read_tts_edit_value(volume_field, 100, limits.volume_min, limits.volume_max);
        (rate, volume)
    } else {
        let raw_rate = combo_value(rate_items, rate_selection);
        let raw_volume = combo_value(volume_items, volume_selection);
        let rate = if raw_rate < limits.rate_min {
            limits.rate_min
        } else if raw_rate > limits.rate_max {
            limits.rate_max
        } else {
            raw_rate
        };
        let volume = if raw_volume < limits.volume_min {
            limits.volume_min
        } else if raw_volume > limits.volume_max {
            limits.volume_max
        } else {
            raw_volume
        };
        (rate, volume)
    }
}

} // verus!
