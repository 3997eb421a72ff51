//! Which of the dialog's controls are shown and usable: by tab, and within a
//! tab by the choices made in it.

use vstd::prelude::*;

use crate::model::Language;

verus! {

/// The tabs of the dialog.
pub const OPTIONS_TAB_GENERAL: i32 = 0;
pub const OPTIONS_TAB_VOICE: i32 = 1;
pub const OPTIONS_TAB_EDITOR: i32 = 2;
pub const OPTIONS_TAB_AUDIO: i32 = 3;
pub const OPTIONS_TAB_RSS_PODCAST: i32 = 4;
pub const OPTIONS_TAB_AI_TRANSCRIPTION: i32 = 5;
pub const OPTIONS_TAB_SHORTCUTS: i32 = 6;

/// What a tab needs brought up to date once it is shown.
#[derive(Clone, Copy, Debug, PartialEq, Eq, Structural)]
pub enum TabFollowUp {
    /// The audio tab: the split and ducking controls.
    AudioControls,
    /// The voice tab: the voice lists, the tuning fields, the dialogue
    /// controls and the profile buttons.
    VoiceControls,
    /// The editor tab: the indentation widths.
    IndentationControls,
    /// The shortcuts tab: the shown shortcut.
    ShortcutText,
    /// Any other tab: the audio split controls are hidden.
    HideAudioSplitControls,
}

/// What selecting a tab does.
#[derive(Clone, Copy, Debug, PartialEq, Eq, Structural)]
pub struct TabChange {
    /// The tab shown: the requested one, kept between the first and the last.
    pub tab: i32,
    /// The tab's first control takes the focus (the first time only).
    pub focus_first: bool,
    pub follow_up: TabFollowUp,
}

/// What selecting tab `index` does, the focus having been placed before or not.
pub open spec fn tab_change_spec(index: i32, focus_initialized: bool) -> TabChange {
    let tab = if index < 0 {
        0
    } else if index > 6 {
        6
    } else {
        index
    };
    TabChange {
        tab,
        focus_first: !focus_initialized,
        follow_up: if tab == OPTIONS_TAB_AUDIO {
            TabFollowUp::AudioControls
        } else if tab == OPTIONS_TAB_VOICE {
            TabFollowUp::VoiceControls
        } else if tab == OPTIONS_TAB_EDITOR {
            TabFollowUp::IndentationControls
        } else if tab == OPTIONS_TAB_SHORTCUTS {
            TabFollowUp::ShortcutText
        } else {
            TabFollowUp::HideAudioSplitControls
        },
    }
}

/// What selecting tab `index` does.
pub fn tab_change(index: i32, focus_initialized: bool) -> (change: TabChange)
    ensures
        change == tab_change_spec(index, focus_initialized),
{
    let tab = if index < 0 {
        0
    } else if index > 6 {
        6
    } else {
        index
    };
    let follow_up = if tab == OPTIONS_TAB_AUDIO {
        TabFollowUp::AudioControls
    } else if tab == OPTIONS_TAB_VOICE {
        TabFollowUp::VoiceControls
    } else if tab == OPTIONS_TAB_EDITOR {
        TabFollowUp::IndentationControls
    } else if tab == OPTIONS_TAB_SHORTCUTS {
        TabFollowUp::ShortcutText
    } else {
        TabFollowUp::HideAudioSplitControls
    };
    TabChange { tab, focus_first: !focus_initialized, follow_up }
}

/// The groups of controls that a tab shows.
#[derive(Clone, Copy, Debug, PartialEq, Eq, Structural)]
pub enum ControlGroup {
    General,
    Voice,
    Editor,
    Audio,
    RssPodcast,
    /// The RAI Luce code, on the RSS and podcast tab of the Italian interface.
    RaiLuceCode,
    AiTranscription,
    Shortcuts,
}

/// The tab of a group of controls.
pub open spec fn group_tab_spec(group: ControlGroup) -> i32 {
    match group {
        ControlGroup::General => OPTIONS_TAB_GENERAL,
        ControlGroup::Voice => OPTIONS_TAB_VOICE,
        ControlGroup::Editor => OPTIONS_TAB_EDITOR,
        ControlGroup::Audio => OPTIONS_TAB_AUDIO,
        ControlGroup::RssPodcast => OPTIONS_TAB_RSS_PODCAST,
        ControlGroup::RaiLuceCode => OPTIONS_TAB_RSS_PODCAST,
        ControlGroup::AiTranscription => OPTIONS_TAB_AI_TRANSCRIPTION,
        ControlGroup::Shortcuts => OPTIONS_TAB_SHORTCUTS,
    }
}

/// Whether a group of controls is shown on tab `tab`: on its own tab only,
/// and the RAI Luce code only for the Italian interface.
pub fn group_visible(group: ControlGroup, tab: i32, language: Language) -> (visible: bool)
    ensures
        visible == (tab == group_tab_spec(group) && (group == ControlGroup::RaiLuceCode ==> language
            == Language::Italian)),
{
    match group {
        ControlGroup::General => tab == OPTIONS_TAB_GENERAL,
        ControlGroup::Voice => tab == OPTIONS_TAB_VOICE,
        ControlGroup::Editor => tab == OPTIONS_TAB_EDITOR,
        ControlGroup::Audio => tab == OPTIONS_TAB_AUDIO,
        ControlGroup::RssPodcast => tab == OPTIONS_TAB_RSS_PODCAST,
        ControlGroup::RaiLuceCode => tab == OPTIONS_TAB_RSS_PODCAST && language == Language::Italian,
        ControlGroup::AiTranscription => tab == OPTIONS_TAB_AI_TRANSCRIPTION,
        ControlGroup::Shortcuts => tab == OPTIONS_TAB_SHORTCUTS,
    }
}

/// The role of a control of the dialogue-voice section.
#[derive(Clone, Copy, Debug, PartialEq, Eq, Structural)]
pub enum DialogueControlRole {
    /// The box that turns the dialogue voice on.
    Toggle,
    /// The box that turns the secondary dialogue voice on.
    SecondaryToggle,
    /// Any other control of the dialogue voice.
    Primary,
    PrimaryLanguage,
    PrimaryMultilingual,
    PrimaryTuningList,
    PrimaryTuningField,
    /// Any other control of the secondary dialogue voice.
    Secondary,
    SecondaryLanguage,
    SecondaryMultilingual,
    SecondaryTuningList,
    SecondaryTuningField,
}

/// Whether a control of the dialogue-voice section is shown and usable.
#[derive(Clone, Copy, Debug, PartialEq, Eq, Structural)]
pub struct ControlState {
    pub visible: bool,
    pub enabled: bool,
}

/// What the choices of the voice tab make of a dialogue-voice control:
/// nothing is shown off the voice tab; the dialogue voice's controls are
/// shown when it is on, the secondary voice's when both are on; the
/// language lists for Edge (or no engine chosen, `selection <= 0`) without
/// the multilingual filter; the multilingual boxes for Edge; the tuning
/// lists without manual tuning and the tuning fields with it.
pub open spec fn dialogue_control_spec(
    role: DialogueControlRole,
    voice_tab_active: bool,
    use_dialogue: bool,
    use_secondary: bool,
    dialogue_engine_selection: isize,
    secondary_engine_selection: isize,
    dialogue_only_multilingual: bool,
    secondary_only_multilingual: bool,
    manual_tuning: bool,
) -> ControlState {
    let secondary = use_dialogue && use_secondary;
    let dialogue_edge = dialogue_engine_selection <= 0;
    let secondary_edge = secondary_engine_selection <= 0;
    if !voice_tab_active {
        ControlState { visible: false, enabled: false }
    } else {
        match role {
            DialogueControlRole::Toggle => ControlState { visible: true, enabled: true },
            DialogueControlRole::SecondaryToggle => ControlState { visible: use_dialogue, enabled: true },
            DialogueControlRole::Primary => ControlState { visible: use_dialogue, enabled: use_dialogue },
            DialogueControlRole::PrimaryLanguage => {
                let shown = use_dialogue && dialogue_edge && !dialogue_only_multilingual;
                ControlState { visible: shown, enabled: shown }
            },
            DialogueControlRole::PrimaryMultilingual => {
                let shown = use_dialogue && dialogue_edge;
                ControlState { visible: shown, enabled: shown }
            },
            DialogueControlRole::PrimaryTuningList => {
                let shown = use_dialogue && !manual_tuning;
                ControlState { visible: shown, enabled: shown }
            },
            DialogueControlRole::PrimaryTuningField => {
                let shown = use_dialogue && manual_tuning;
                ControlState { visible: shown, enabled: shown }
            },
            DialogueControlRole::Secondary => ControlState { visible: secondary, enabled: secondary },
            DialogueControlRole::SecondaryLanguage => {
                let shown = secondary && secondary_edge && !secondary_only_multilingual;
                ControlState { visible: shown, enabled: shown }
            },
            DialogueControlRole::SecondaryMultilingual => {
                let shown = secondary && secondary_edge;
                ControlState { visible: shown, enabled: shown }
            },
            DialogueControlRole::SecondaryTuningList => {
                let shown = secondary && !manual_tuning;
                ControlState { visible: shown, enabled: shown }
            },
            DialogueControlRole::SecondaryTuningField => {
                let shown = secondary && manual_tuning;
                ControlState { visible: shown, enabled: shown }
            },
        }
    }
}

/// Whether a control of the dialogue-voice section is shown and usable.
pub fn dialogue_control_state(
    role: DialogueControlRole,
    voice_tab_active: bool,
    use_dialogue: bool,
    use_secondary: bool,
    dialogue_engine_selection: isize,
    secondary_engine_selection: isize,
    dialogue_only_multilingual: bool,
    secondary_only_multilingual: bool,
    manual_tuning: bool,
) -> (state: ControlState)
    ensures
        state == dialogue_control_spec(
            role,
            voice_tab_active,
            use_dialogue,
            use_secondary,
            dialogue_engine_selection,
            secondary_engine_selection,
            dialogue_only_multilingual,
            secondary_only_multilingual,
            manual_tuning,
        ),
{
    let secondary = use_dialogue && use_secondary;
    let dialogue_edge = dialogue_engine_selection <= 0;
    let secondary_edge = secondary_engine_selection <= 0;
    if !voice_tab_active {
        return ControlState { visible: false, enabled: false };
    }
    let (visible, enabled) = match role {
        DialogueControlRole::Toggle => (true, true),
        DialogueControlRole::SecondaryToggle => (use_dialogue, true),
        DialogueControlRole::Primary => (use_dialogue, use_dialogue),
        DialogueControlRole::PrimaryLanguage => {
            let shown = use_dialogue && dialogue_edge && !dialogue_only_multilingual;
            (shown, shown)
        },
        DialogueControlRole::PrimaryMultilingual => {
            let shown = use_dialogue && dialogue_edge;
            (shown, shown)
        },
        DialogueControlRole::PrimaryTuningList => {
            let shown = use_dialogue && !manual_tuning;
            (shown, shown)
        },
        DialogueControlRole::PrimaryTuningField => {
            let shown = use_dialogue && manual_tuning;
            (shown, shown)
        },
        DialogueControlRole::Secondary => (secondary, secondary),
        DialogueControlRole::SecondaryLanguage => {
            let shown = secondary && secondary_edge && !secondary_only_multilingual;
            (shown, shown)
        },
        DialogueControlRole::SecondaryMultilingual => {
            let shown = secondary && secondary_edge;
            (shown, shown)
        },
        DialogueControlRole::SecondaryTuningList => {
            let shown = secondary && !manual_tuning;
            (shown, shown)
        },
        DialogueControlRole::SecondaryTuningField => {
            let shown = secondary && manual_tuning;
            (shown, shown)
        },
    };
    ControlState { visible, enabled }
}

/// While the dialogue voice is off, its on/off box is the only control of
/// the section that is shown.
pub proof fn lemma_dialogue_off_hides_section(
    role: DialogueControlRole,
    voice_tab_active: bool,
    use_secondary: bool,
    dialogue_engine_selection: isize,
    secondary_engine_selection: isize,
    dialogue_only_multilingual: bool,
    secondary_only_multilingual: bool,
    manual_tuning: bool,
)
    requires
        role != DialogueControlRole::Toggle,
    ensures
        !dialogue_control_spec(
            role,
            voice_tab_active,
            false,
            use_secondary,
            dialogue_engine_selection,
            secondary_engine_selection,
            dialogue_only_multilingual,
            secondary_only_multilingual,
            manual_tuning,
        ).visible,
{
}

/// Which audiobook split controls are shown (and usable): the marker text
/// for a split by text, the minutes and start number for a split by time,
/// the number of parts for a split into parts; the split list's entries
/// are no split, by time, by text and into parts.
#[derive(Clone, Copy, Debug, PartialEq, Eq, Structural)]
pub struct SplitControls {
    pub text: bool,
    pub time: bool,
    pub parts: bool,
}

/// Which audiobook split controls the split list's selection shows.
pub fn split_controls(selection: isize) -> (c: SplitControls)
    ensures
        c == (SplitControls { text: selection == 2, time: selection == 1, parts: selection == 3 }),
{
    SplitControls { text: selection == 2, time: selection == 1, parts: selection == 3 }
}

/// The audiobook split controls that follow the split list in the tab order.
#[derive(Clone, Copy, Debug, PartialEq, Eq, Structural)]
pub enum SplitTabControl {
    TextLabel,
    TextEdit,
    RequiresNewline,
    MinutesLabel,
    MinutesList,
    StartNumberLabel,
    StartNumberList,
    PartsCountLabel,
    PartsCountEdit,
    PartNamingLabel,
    PartNamingList,
    PartAnnouncementLabel,
    PartAnnouncementList,
}

/// The naming and announcement controls, which end every order.
pub open spec fn split_tail_spec() -> Seq<SplitTabControl> {
    seq![
        SplitTabControl::PartNamingLabel,
        SplitTabControl::PartNamingList,
        SplitTabControl::PartAnnouncementLabel,
        SplitTabControl::PartAnnouncementList,
    ]
}

/// The tab order, after the split list, of the controls that `shown` shows:
/// the controls of the split by text, by time or into parts (the first of
/// these that is shown), then the naming and announcement controls.
pub open spec fn split_tab_order_spec(shown: SplitControls) -> Seq<SplitTabControl> {
    if shown.text {
        seq![SplitTabControl::TextLabel, SplitTabControl::TextEdit, SplitTabControl::RequiresNewline]
            + split_tail_spec()
    } else if shown.time {
        seq![
            SplitTabControl::MinutesLabel,
            SplitTabControl::MinutesList,
            SplitTabControl::StartNumberLabel,
            SplitTabControl::StartNumberList,
        ] + split_tail_spec()
    } else if shown.parts {
        seq![SplitTabControl::PartsCountLabel, SplitTabControl::PartsCountEdit] + split_tail_spec()
    } else {
        split_tail_spec()
    }
}

fn push_split_tail(order: &mut Vec<SplitTabControl>)
    ensures
        final(order)@ == old(order)@ + split_tail_spec(),
{
    order.push(SplitTabControl::PartNamingLabel);
    order.push(SplitTabControl::PartNamingList);
    order.push(SplitTabControl::PartAnnouncementLabel);
    order.push(SplitTabControl::PartAnnouncementList);
    proof {
        assert(final(order)@ =~= old(order)@ + split_tail_spec());
    }
}

/// The tab order, after the split list, of the audiobook split controls.
pub fn split_tab_order(shown: SplitControls) -> (order: Vec<SplitTabControl>)
    ensures
        order@ == split_tab_order_spec(shown),
{
    let mut order: Vec<SplitTabControl> = Vec::new();
    if shown.text {
        order.push(SplitTabControl::TextLabel);
        order.push(SplitTabControl::TextEdit);
        order.push(SplitTabControl::RequiresNewline);
    } else if shown.time {
        order.push(SplitTabControl::MinutesLabel);
        order.push(SplitTabControl::MinutesList);
        order.push(SplitTabControl::StartNumberLabel);
        order.push(SplitTabControl::StartNumberList);
    } else if shown.parts {
        order.push(SplitTabControl::PartsCountLabel);
        order.push(SplitTabControl::PartsCountEdit);
    }
    let ghost head = order@;
    push_split_tail(&mut order);
    proof {
        if shown.text {
            assert(head =~= seq![SplitTabControl::TextLabel, SplitTabControl::TextEdit, SplitTabControl::RequiresNewline]);
        } else if shown.time {
            assert(head =~= seq![
                SplitTabControl::MinutesLabel,
                SplitTabControl::MinutesList,
                SplitTabControl::StartNumberLabel,
                SplitTabControl::StartNumberList,
            ]);
        } else if shown.parts {
            assert(head =~= seq![SplitTabControl::PartsCountLabel, SplitTabControl::PartsCountEdit]);
        } else {
            assert(head =~= Seq::<SplitTabControl>::empty());
        }
    }
    order
}

/// The control that takes the focus when a tab is first shown.
#[derive(Clone, Copy, Debug, PartialEq, Eq, Structural)]
pub enum TabFirstControl {
    /// The general tab: the language list.
    LanguageList,
    /// The voice tab: the engine list.
    EngineList,
    /// The editor tab: the word wrap box.
    WordWrapBox,
    /// The audio tab: the skip list.
    SkipList,
    /// The RSS and podcast tab: the RSS delete confirmation list.
    RssDeleteConfirmList,
    /// The transcription tab: the model list.
    WhisperModelList,
    /// The shortcuts tab: the action list.
    ShortcutActionList,
}

/// The control focused first on tab `index`; none for a number that names no tab.
pub fn tab_first_control(index: i32) -> (r: Option<TabFirstControl>)
    ensures
        r == (if index == OPTIONS_TAB_GENERAL {
            Some(TabFirstControl::LanguageList)
        } else if index == OPTIONS_TAB_VOICE {
            Some(TabFirstControl::EngineList)
        } else if index == OPTIONS_TAB_EDITOR {
            Some(TabFirstControl::WordWrapBox)
        } else if index == OPTIONS_TAB_AUDIO {
            Some(TabFirstControl::SkipList)
        } else if index == OPTIONS_TAB_RSS_PODCAST {
            Some(TabFirstControl::RssDeleteConfirmList)
        } else if index == OPTIONS_TAB_AI_TRANSCRIPTION {
            Some(TabFirstControl::WhisperModelList)
        } else if index == OPTIONS_TAB_SHORTCUTS {
            Some(TabFirstControl::ShortcutActionList)
        } else {
            None
        }),
{
    match index {
        OPTIONS_TAB_GENERAL => Some(TabFirstControl::LanguageList),
        OPTIONS_TAB_VOICE => Some(TabFirstControl::EngineList),
        OPTIONS_TAB_EDITOR => Some(TabFirstControl::WordWrapBox),
        OPTIONS_TAB_AUDIO => Some(TabFirstControl::SkipList),
        OPTIONS_TAB_RSS_PODCAST => Some(TabFirstControl::RssDeleteConfirmList),
        OPTIONS_TAB_AI_TRANSCRIPTION => Some(TabFirstControl::WhisperModelList),
        OPTIONS_TAB_SHORTCUTS => Some(TabFirstControl::ShortcutActionList),
        _ => None,
    }
}

/// Whether the ducking box is shown (and usable): only for the subtitle
/// mode that records.
pub fn subtitle_ducking_visible(selection: isize) -> (visible: bool)
    ensures
        visible == (selection == 3),
{
    selection == 3
}

/// Which indentation width list is shown (and usable): the tab width for
/// tabs, the space width for spaces.
pub fn indentation_width_lists(selection: isize) -> (r: (bool, bool))
    ensures
        r == (selection == 1, selection == 2),
{
    (selection == 1, selection == 2)
}

} // verus!
