//! The dialog's keyboard and command handling: what a key press or a
//! control's notification makes the dialog do.

use vstd::prelude::*;

use crate::model::ShortcutSettings;
use crate::shortcuts::{
    capture_outcome_spec, capture_shortcut_key, next_options_tab, next_tab_spec, ShortcutAction,
    ShortcutCaptureOutcome,
};

verus! {

/// The virtual-key code of Tab.
pub const VK_TAB_CODE: u16 = 0x09;
/// The virtual-key code of Return.
pub const VK_RETURN_CODE: u16 = 0x0D;
/// The virtual-key code of Escape.
pub const VK_ESCAPE_CODE: u16 = 0x1B;

/// The kind of a message that reaches the dialog's keyboard handling.
#[derive(Clone, Copy, Debug, PartialEq, Eq, Structural)]
pub enum KeyMessage {
    KeyDown,
    SysKeyDown,
    Other,
}

/// What the dialog knows when a message reaches its keyboard handling.
#[derive(Clone, Copy, Debug)]
pub struct NavigationInput {
    pub message: KeyMessage,
    pub key: u16,
    /// A new shortcut is awaited.
    pub capture_pending: bool,
    /// The field that shows the shortcut exists.
    pub has_shortcut_field: bool,
    /// Control, Shift and Alt, left or right, are held (read both ways).
    pub ctrl: bool,
    pub shift: bool,
    pub alt: bool,
    /// Control and Shift as the key state reports them.
    pub ctrl_state: bool,
    pub shift_state: bool,
    /// The action whose shortcut is awaited, and the shortcuts being edited.
    pub action: ShortcutAction,
    pub draft: ShortcutSettings,
    /// The tab control exists, and its selected tab.
    pub has_tabs: bool,
    pub current_tab: i32,
    /// The focused control belongs to the dialog, and it is a list that is
    /// dropped down.
    pub focus_in_dialog: bool,
    pub focus_dropped: bool,
    /// The focused control is the insert-tag or the insert-pause button.
    pub focus_on_insert_tag: bool,
    pub focus_on_insert_pause: bool,
}

/// What the dialog does with a message of its keyboard handling.
#[derive(Clone, Copy, Debug)]
pub enum NavigationAction {
    /// The message is not the dialog's (no shortcut field while a shortcut
    /// is awaited).
    Unhandled,
    /// The key answers the wait for a new shortcut.
    Capture { outcome: ShortcutCaptureOutcome },
    /// Another tab is selected and focused.
    SelectTab { tab: i32 },
    /// Return confirms the dialog, first inserting a tag or a pause when the
    /// focus is on that button.
    Confirm { insert_tag: bool, insert_pause: bool },
    /// The message goes on to the accessibility handling.
    PassOn,
}

/// What the dialog does with a message of its keyboard handling: while a
/// shortcut is awaited, a key press answers the wait; otherwise Ctrl+Tab and
/// Ctrl+Shift+Tab change the tab, and Return on a control of the dialog
/// whose list is not dropped down confirms the dialog.
pub open spec fn navigation_spec(input: NavigationInput, action: NavigationAction) -> bool {
    if (input.message == KeyMessage::KeyDown || input.message == KeyMessage::SysKeyDown)
        && input.capture_pending {
        if !input.has_shortcut_field {
            action is Unhandled
        } else {
            match action {
                NavigationAction::Capture { outcome } => capture_outcome_spec(
                    input.draft,
                    input.action,
                    input.key,
                    input.ctrl,
                    input.shift,
                    input.alt,
                    outcome,
                ),
                _ => false,
            }
        }
    } else if input.message == KeyMessage::KeyDown && input.key == VK_TAB_CODE && input.ctrl_state
        && input.has_tabs {
        action == (NavigationAction::SelectTab {
            tab: next_tab_spec(input.current_tab as int, input.shift_state) as i32,
        })
    } else if input.message == KeyMessage::KeyDown && input.key == VK_RETURN_CODE && input.focus_in_dialog
        && !input.focus_dropped {
        action == (NavigationAction::Confirm {
            insert_tag: input.focus_on_insert_tag,
            insert_pause: input.focus_on_insert_pause,
        })
    } else {
        action is PassOn
    }
}

/// What the dialog does with a message of its keyboard handling.
pub fn handle_navigation(input: &NavigationInput) -> (action: NavigationAction)
    ensures
        navigation_spec(*input, action),
{
    if (input.message == KeyMessage::KeyDown || input.message == KeyMessage::SysKeyDown)
        && input.capture_pending {
        if !input.has_shortcut_field {
            return NavigationAction::Unhandled;
        }
        let outcome = capture_shortcut_key(
            &input.draft,
            input.action,
            input.key,
            input.ctrl,
            input.shift,
            input.alt,
        );
        return NavigationAction::Capture { outcome };
    }
    if input.message == KeyMessage::KeyDown && input.key == VK_TAB_CODE && input.ctrl_state && input.has_tabs {
        let tab = next_options_tab(input.current_tab, input.shift_state);
        return NavigationAction::SelectTab { tab };
    }
    if input.message == KeyMessage::KeyDown && input.key == VK_RETURN_CODE && input.focus_in_dialog
        && !input.focus_dropped {
        return NavigationAction::Confirm {
            insert_tag: input.focus_on_insert_tag,
            insert_pause: input.focus_on_insert_pause,
        };
    }
    NavigationAction::PassOn
}

/// What a key press that reaches the dialog window itself does.
#[derive(Clone, Copy, Debug, PartialEq, Eq, Structural)]
pub enum DialogKeyAction {
    /// Another tab is selected and focused.
    SelectTab { tab: i32 },
    /// The dialog is applied.
    Apply,
    /// The dialog closes.
    Close,
    /// The default window procedure handles the key.
    Default,
}

/// What a key press that reaches the dialog window does: Ctrl+Tab (with
/// Shift, backwards) changes the tab when there is a tab control; Return on
/// one of the voice controls applies the dialog; Escape closes it.
pub open spec fn dialog_key_spec(
    key: u16,
    ctrl_state: bool,
    shift_state: bool,
    has_tabs: bool,
    current_tab: i32,
    focus_on_voice_control: bool,
) -> DialogKeyAction {
    if key == VK_TAB_CODE && ctrl_state && has_tabs {
        DialogKeyAction::SelectTab { tab: next_tab_spec(current_tab as int, shift_state) as i32 }
    } else if key == VK_RETURN_CODE {
        if focus_on_voice_control {
            DialogKeyAction::Apply
        } else {
            DialogKeyAction::Default
        }
    } else if key == VK_ESCAPE_CODE {
        DialogKeyAction::Close
    } else {
        DialogKeyAction::Default
    }
}

/// What a key press that reaches the dialog window does.
pub fn dialog_key_action(
    key: u16,
    ctrl_state: bool,
    shift_state: bool,
    has_tabs: bool,
    current_tab: i32,
    focus_on_voice_control: bool,
) -> (action: DialogKeyAction)
    ensures
        action == dialog_key_spec(key, ctrl_state, shift_state, has_tabs, current_tab, focus_on_voice_control),
{
    if key == VK_TAB_CODE && ctrl_state && has_tabs {
        let tab = next_options_tab(current_tab, shift_state);
        DialogKeyAction::SelectTab { tab }
    } else if key == VK_RETURN_CODE {
        if focus_on_voice_control {
            DialogKeyAction::Apply
        } else {
            DialogKeyAction::Default
        }
    } else if key == VK_ESCAPE_CODE {
        DialogKeyAction::Close
    } else {
        DialogKeyAction::Default
    }
}

/// The notification that a list's selection changed.
pub const CBN_SELCHANGE_CODE: u32 = 1;

/// What a command of one of the dialog's controls makes the dialog do.
#[derive(Clone, Copy, Debug, PartialEq, Eq, Structural)]
pub enum OptionsCommand {
    /// OK: the dialog is applied.
    Apply,
    /// Cancel (or the dialog's cancel command): the dialog closes.
    Close,
    /// The "only multilingual" box: the voice lists are refreshed and the tab laid out again.
    VoiceFilterChanged,
    /// A dialogue "only multilingual" box: the voice lists are refreshed and the dialogue controls shown or hidden.
    DialogueVoiceFilterChanged,
    /// A new voice language: the voice lists are refreshed and the tab laid out again.
    VoiceLanguageChanged,
    /// A new dialogue voice language: the voice lists are refreshed.
    DialogueVoiceLanguageChanged,
    /// The Google-voices button: the voice manager opens.
    ManageGoogleVoices,
    /// The preview button: the voice is heard.
    PreviewVoice,
    /// The insert-tag button: a voice tag is inserted.
    InsertVoiceTag,
    /// The insert-pause button: a pause tag is inserted.
    InsertPause,
    /// The get-key button: the page of Gemini keys opens.
    OpenGeminiKeyPage,
    /// The refresh-models button: the models are requested.
    RefreshGeminiModels,
    /// A new voice profile: its settings are loaded into the form.
    VoiceProfileChanged,
    /// The rename-profile button.
    RenameVoiceProfile,
    /// The add-profile button.
    AddVoiceProfile,
    /// The delete-profile button.
    DeleteVoiceProfile,
    /// A new speech engine.
    EngineChanged,
    /// A new dialogue speech engine.
    DialogueEngineChanged,
    /// A new secondary dialogue speech engine.
    SecondaryDialogueEngineChanged,
    /// A new audiobook split: the split controls are shown or hidden.
    AudioSplitChanged,
    /// A new subtitle mode: the ducking box is shown or hidden.
    SubtitleModeChanged,
    /// A new indentation mode: the width lists are shown or hidden.
    IndentModeChanged,
    /// The spell-checker box: the language list is shown or hidden.
    SpellcheckToggled,
    /// The manual-tuning box: the tuning fields are shown or hidden.
    ManualTuningToggled,
    /// A dialogue-voice box: the voice lists are refreshed and the dialogue controls shown or hidden.
    DialogueVoiceToggled,
    /// The dialogue preview button.
    PreviewDialogueVoice,
    /// The secondary dialogue preview button.
    PreviewSecondaryDialogueVoice,
    /// A new folder kind: the folder field switches kind.
    SaveFolderKindChanged,
    /// The PodcastIndex sign-up button.
    OpenPodcastIndexSignup,
    /// The browse-interpreter button.
    BrowseInterpreter,
    /// The browse-folder button.
    BrowseSaveFolder,
    /// The search-interpreter button.
    SearchInterpreter,
    /// The file-associations button.
    ManageAssociations,
    /// The site-credentials button.
    ManageSiteCredentials,
    /// A new shortcut action: waiting for a shortcut stops.
    ShortcutActionChanged,
    /// The change-shortcut button: a new shortcut is awaited.
    StartShortcutCapture,
    /// The reset-shortcut button.
    ResetShortcut,
    /// The reset-all-shortcuts button.
    ResetAllShortcuts,
    /// A notification of a list that the dialog does not act on.
    Ignore,
    /// A command the dialog does not know: the default window procedure.
    Default,
}

/// What the command `notification` of the control `control_id` makes the
/// dialog do; lists act on a change of selection only.
pub open spec fn options_command_spec(control_id: usize, notification: u32) -> OptionsCommand {
    if control_id == 6005 {
        OptionsCommand::Apply
    } else if control_id == 6006 || control_id == 2 {
        OptionsCommand::Close
    } else if control_id == 6004 {
        OptionsCommand::VoiceFilterChanged
    } else if control_id == 6095 || control_id == 6096 {
        OptionsCommand::DialogueVoiceFilterChanged
    } else if control_id == 6075 {
        if notification == CBN_SELCHANGE_CODE {
            OptionsCommand::VoiceLanguageChanged
        } else {
            OptionsCommand::Ignore
        }
    } else if control_id == 6082 || control_id == 6094 {
        if notification == CBN_SELCHANGE_CODE {
            OptionsCommand::DialogueVoiceLanguageChanged
        } else {
            OptionsCommand::Ignore
        }
    } else if control_id == 6150 {
        OptionsCommand::ManageGoogleVoices
    } else if control_id == 6022 {
        OptionsCommand::PreviewVoice
    } else if control_id == 6056 {
        OptionsCommand::InsertVoiceTag
    } else if control_id == 6140 {
        OptionsCommand::InsertPause
    } else if control_id == 6147 {
        OptionsCommand::OpenGeminiKeyPage
    } else if control_id == 6149 {
        OptionsCommand::RefreshGeminiModels
    } else if control_id == 6115 {
        if notification == CBN_SELCHANGE_CODE {
            OptionsCommand::VoiceProfileChanged
        } else {
            OptionsCommand::Ignore
        }
    } else if control_id == 6116 {
        OptionsCommand::RenameVoiceProfile
    } else if control_id == 6117 {
        OptionsCommand::AddVoiceProfile
    } else if control_id == 6118 {
        OptionsCommand::DeleteVoiceProfile
    } else if control_id == 6012 {
        if notification == CBN_SELCHANGE_CODE {
            OptionsCommand::EngineChanged
        } else {
            OptionsCommand::Ignore
        }
    } else if control_id == 6055 {
        if notification == CBN_SELCHANGE_CODE {
            OptionsCommand::DialogueEngineChanged
        } else {
            OptionsCommand::Ignore
        }
    } else if control_id == 6093 {
        if notification == CBN_SELCHANGE_CODE {
            OptionsCommand::SecondaryDialogueEngineChanged
        } else {
            OptionsCommand::Ignore
        }
    } else if control_id == 6011 {
        if notification == CBN_SELCHANGE_CODE {
            OptionsCommand::AudioSplitChanged
        } else {
            OptionsCommand::Ignore
        }
    } else if control_id == 6046 {
        if notification == CBN_SELCHANGE_CODE {
            OptionsCommand::SubtitleModeChanged
        } else {
            OptionsCommand::Ignore
        }
    } else if control_id == 6060 {
        if notification == CBN_SELCHANGE_CODE {
            OptionsCommand::IndentModeChanged
        } else {
            OptionsCommand::Ignore
        }
    } else if control_id == 6027 {
        OptionsCommand::SpellcheckToggled
    } else if control_id == 6031 {
        OptionsCommand::ManualTuningToggled
    } else if control_id == 6049 || control_id == 6088 {
        OptionsCommand::DialogueVoiceToggled
    } else if control_id == 6051 {
        OptionsCommand::PreviewDialogueVoice
    } else if control_id == 6097 {
        OptionsCommand::PreviewSecondaryDialogueVoice
    } else if control_id == 6110 {
        if notification == CBN_SELCHANGE_CODE {
            OptionsCommand::SaveFolderKindChanged
        } else {
            OptionsCommand::Ignore
        }
    } else if control_id == 6037 {
        OptionsCommand::OpenPodcastIndexSignup
    } else if control_id == 6042 {
        OptionsCommand::BrowseInterpreter
    } else if control_id == 6065 {
        OptionsCommand::BrowseSaveFolder
    } else if control_id == 6043 {
        OptionsCommand::SearchInterpreter
    } else if control_id == 6044 {
        OptionsCommand::ManageAssociations
    } else if control_id == 6131 {
        OptionsCommand::ManageSiteCredentials
    } else if control_id == 6070 {
        if notification == CBN_SELCHANGE_CODE {
            OptionsCommand::ShortcutActionChanged
        } else {
            OptionsCommand::Ignore
        }
    } else if control_id == 6072 {
        OptionsCommand::StartShortcutCapture
    } else if control_id == 6073 {
        OptionsCommand::ResetShortcut
    } else if control_id == 6074 {
        OptionsCommand::ResetAllShortcuts
    } else {
        OptionsCommand::Default
    }
}

/// What the command `notification` of the control `control_id` makes the
/// dialog do.
pub fn options_command(control_id: usize, notification: u32) -> (command: OptionsCommand)
    ensures
        command == options_command_spec(control_id, notification),
{
    if control_id == 6005 {
        OptionsCommand::Apply
    } else if control_id == 6006 || control_id == 2 {
        OptionsCommand::Close
    } else if control_id == 6004 {
        OptionsCommand::VoiceFilterChanged
    } else if control_id == 6095 || control_id == 6096 {
        OptionsCommand::DialogueVoiceFilterChanged
    } else if control_id == 6075 {
        if notification == CBN_SELCHANGE_CODE {
            OptionsCommand::VoiceLanguageChanged
        } else {
            OptionsCommand::Ignore
        }
    } else if control_id == 6082 || control_id == 6094 {
        if notification == CBN_SELCHANGE_CODE {
            OptionsCommand::DialogueVoiceLanguageChanged
        } else {
            OptionsCommand::Ignore
        }
    } else if control_id == 6150 {
        OptionsCommand::ManageGoogleVoices
    } else if control_id == 6022 {
        OptionsCommand::PreviewVoice
    } else if control_id == 6056 {
        OptionsCommand::InsertVoiceTag
    } else if control_id == 6140 {
        OptionsCommand::InsertPause
    } else if control_id == 6147 {
        OptionsCommand::OpenGeminiKeyPage
    } else if control_id == 6149 {
        OptionsCommand::RefreshGeminiModels
    } else if control_id == 6115 {
        if notification == CBN_SELCHANGE_CODE {
            OptionsCommand::VoiceProfileChanged
        } else {
            OptionsCommand::Ignore
        }
    } else if control_id == 6116 {
        OptionsCommand::RenameVoiceProfile
    } else if control_id == 6117 {
        OptionsCommand::AddVoiceProfile
    } else if control_id == 6118 {
        OptionsCommand::DeleteVoiceProfile
    } else if control_id == 6012 {
        if notification == CBN_SELCHANGE_CODE {
            OptionsCommand::EngineChanged
        } else {
            OptionsCommand::Ignore
        }
    } else if control_id == 6055 {
        if notification == CBN_SELCHANGE_CODE {
            OptionsCommand::DialogueEngineChanged
        } else {
            OptionsCommand::Ignore
        }
    } else if control_id == 6093 {
        if notification == CBN_SELCHANGE_CODE {
            OptionsCommand::SecondaryDialogueEngineChanged
        } else {
            OptionsCommand::Ignore
        }
    } else if control_id == 6011 {
        if notification == CBN_SELCHANGE_CODE {
            OptionsCommand::AudioSplitChanged
        } else {
            OptionsCommand::Ignore
        }
    } else if control_id == 6046 {
        if notification == CBN_SELCHANGE_CODE {
            OptionsCommand::SubtitleModeChanged
        } else {
            OptionsCommand::Ignore
        }
    } else if control_id == 6060 {
        if notification == CBN_SELCHANGE_CODE {
            OptionsCommand::IndentModeChanged
        } else {
            OptionsCommand::Ignore
        }
    } else if control_id == 6027 {
        OptionsCommand::SpellcheckToggled
    } else if control_id == 6031 {
        OptionsCommand::ManualTuningToggled
    } else if control_id == 6049 || control_id == 6088 {
        OptionsCommand::DialogueVoiceToggled
    } else if control_id == 6051 {
        OptionsCommand::PreviewDialogueVoice
    } else if control_id == 6097 {
        OptionsCommand::PreviewSecondaryDialogueVoice
    } else if control_id == 6110 {
        if notification == CBN_SELCHANGE_CODE {
            OptionsCommand::SaveFolderKindChanged
        } else {
            OptionsCommand::Ignore
        }
    } else if control_id == 6037 {
        OptionsCommand::OpenPodcastIndexSignup
    } else if control_id == 6042 {
        OptionsCommand::BrowseInterpreter
    } else if control_id == 6065 {
        OptionsCommand::BrowseSaveFolder
    } else if control_id == 6043 {
        OptionsCommand::SearchInterpreter
    } else if control_id == 6044 {
        OptionsCommand::ManageAssociations
    } else if control_id == 6131 {
        OptionsCommand::ManageSiteCredentials
    } else if control_id == 6070 {
        if notification == CBN_SELCHANGE_CODE {
            OptionsCommand::ShortcutActionChanged
        } else {
            OptionsCommand::Ignore
        }
    } else if control_id == 6072 {
        OptionsCommand::StartShortcutCapture
    } else if control_id == 6073 {
        OptionsCommand::ResetShortcut
    } else if control_id == 6074 {
        OptionsCommand::ResetAllShortcuts
    } else {
        OptionsCommand::Default
    }
}

} // verus!
