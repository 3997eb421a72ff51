//! The default save folders: one folder per kind of saved file, edited one
//! kind at a time in a single field.

use vstd::prelude::*;

use crate::model::Language;
use crate::text::{trim, trim_spec};

verus! {

/// The kind of the audiobook folder.
pub const DEFAULT_SAVE_FOLDER_AUDIOBOOK: u32 = 0;
/// The kind of the media folder.
pub const DEFAULT_SAVE_FOLDER_MEDIA: u32 = 1;
/// The kind of the documents folder.
pub const DEFAULT_SAVE_FOLDER_DOCUMENTS: u32 = 2;
/// The kind of the radio-recordings folder.
pub const DEFAULT_SAVE_FOLDER_RADIO: u32 = 3;
/// The kind of the TV-recordings folder.
pub const DEFAULT_SAVE_FOLDER_TV: u32 = 4;
/// The kind of the audio-descriptions folder.
pub const DEFAULT_SAVE_FOLDER_AUDIO_DESCRIPTION: u32 = 5;

/// The kinds offered by the folder-kind list, in order: audiobooks, audio
/// descriptions, media, documents, radio, and TV for the Italian interface
/// only.
pub open spec fn save_folder_kinds_spec(language: Language) -> Seq<u32> {
    let base = seq![
        DEFAULT_SAVE_FOLDER_AUDIOBOOK,
        DEFAULT_SAVE_FOLDER_AUDIO_DESCRIPTION,
        DEFAULT_SAVE_FOLDER_MEDIA,
        DEFAULT_SAVE_FOLDER_DOCUMENTS,
        DEFAULT_SAVE_FOLDER_RADIO,
    ];
    if language == Language::Italian {
        base.push(DEFAULT_SAVE_FOLDER_TV)
    } else {
        base
    }
}

/// The kinds offered by the folder-kind list.
pub fn save_folder_kinds(language: Language) -> (kinds: Vec<u32>)
    ensures
        kinds@ == save_folder_kinds_spec(language),
{
    let mut kinds: Vec<u32> = Vec::new();
    kinds.push(DEFAULT_SAVE_FOLDER_AUDIOBOOK);
    kinds.push(DEFAULT_SAVE_FOLDER_AUDIO_DESCRIPTION);
    kinds.push(DEFAULT_SAVE_FOLDER_MEDIA);
    kinds.push(DEFAULT_SAVE_FOLDER_DOCUMENTS);
    kinds.push(DEFAULT_SAVE_FOLDER_RADIO);
    if language == Language::Italian {
        kinds.push(DEFAULT_SAVE_FOLDER_TV);
    }
    proof {
        assert(kinds@ =~= save_folder_kinds_spec(language));
    }
    kinds
}

/// The kind chosen by the folder-kind list's selection: the kind of the
/// entry, or audiobooks when nothing (or nothing listed) is selected.
pub fn selected_save_folder_kind(selection: isize, kinds: &[u32]) -> (kind: u32)
    ensures
        kind == (if 0 <= selection < kinds@.len() {
            kinds@[selection as int]
        } else {
            DEFAULT_SAVE_FOLDER_AUDIOBOOK
        }),
{
    if selection < 0 {
        return DEFAULT_SAVE_FOLDER_AUDIOBOOK;
    }
    let position = selection as usize;
    if position < kinds.len() {
        kinds[position]
    } else {
        DEFAULT_SAVE_FOLDER_AUDIOBOOK
    }
}

/// The folder of each kind.
#[derive(Clone, Debug)]
pub struct SaveFolders {
    pub audiobook: String,
    pub audio_description: String,
    pub media: String,
    pub documents: String,
    pub radio: String,
    pub tv: String,
}

/// Which folder a kind edits: audio descriptions, media, documents, radio
/// and TV by their kinds, audiobooks for any other kind.
pub open spec fn folder_slot(kind: u32) -> int {
    if kind == DEFAULT_SAVE_FOLDER_AUDIO_DESCRIPTION {
        1
    } else if kind == DEFAULT_SAVE_FOLDER_MEDIA {
        2
    } else if kind == DEFAULT_SAVE_FOLDER_DOCUMENTS {
        3
    } else if kind == DEFAULT_SAVE_FOLDER_RADIO {
        4
    } else if kind == DEFAULT_SAVE_FOLDER_TV {
        5
    } else {
        0
    }
}

impl SaveFolders {
    /// The folder in slot `slot`, from 0 to 5 (see `folder_slot`).
    pub open spec fn slot_view(&self, slot: int) -> Seq<char> {
        if slot == 1 {
            self.audio_description@
        } else if slot == 2 {
            self.media@
        } else if slot == 3 {
            self.documents@
        } else if slot == 4 {
            self.radio@
        } else if slot == 5 {
            self.tv@
        } else {
            self.audiobook@
        }
    }

    /// The six folders, slot by slot.
    pub open spec fn slots(&self) -> Seq<Seq<char>> {
        seq![self.audiobook@, self.audio_description@, self.media@, self.documents@, self.radio@, self.tv@]
    }

    /// The slots list each folder at its slot.
    proof fn lemma_slots(&self)
        ensures
            self.slots().len() == 6,
            forall|i: int| 0 <= i < 6 ==> #[trigger] self.slots()[i] == self.slot_view(i),
    {
        assert forall|i: int| 0 <= i < 6 implies #[trigger] self.slots()[i] == self.slot_view(i) by {
            if i == 0 {
            } else if i == 1 {
            } else if i == 2 {
            } else if i == 3 {
            } else if i == 4 {
            } else {
            }
        }
    }

    /// The folder of kind `kind`.
    pub fn get(&self, kind: u32) -> (folder: String)
        ensures
            folder@ == self.slot_view(folder_slot(kind)),
    {
        if kind == DEFAULT_SAVE_FOLDER_AUDIO_DESCRIPTION {
            self.audio_description.clone()
        } else if kind == DEFAULT_SAVE_FOLDER_MEDIA {
            self.media.clone()
        } else if kind == DEFAULT_SAVE_FOLDER_DOCUMENTS {
            self.documents.clone()
        } else if kind == DEFAULT_SAVE_FOLDER_RADIO {
            self.radio.clone()
        } else if kind == DEFAULT_SAVE_FOLDER_TV {
            self.tv.clone()
        } else {
            self.audiobook.clone()
        }
    }

    /// Sets the folder of kind `kind` to `folder`, leaving the others.
    pub fn set(&mut self, kind: u32, folder: String)
        ensures
            final(self).slot_view(folder_slot(kind)) == folder@,
            forall|slot: int| 0 <= slot < 6 && slot != folder_slot(kind) ==> final(self).slot_view(slot) == old(self).slot_view(slot),
    {
        if kind == DEFAULT_SAVE_FOLDER_AUDIO_DESCRIPTION {
            self.audio_description = folder;
        } else if kind == DEFAULT_SAVE_FOLDER_MEDIA {
            self.media = folder;
        } else if kind == DEFAULT_SAVE_FOLDER_DOCUMENTS {
            self.documents = folder;
        } else if kind == DEFAULT_SAVE_FOLDER_RADIO {
            self.radio = folder;
        } else if kind == DEFAULT_SAVE_FOLDER_TV {
            self.tv = folder;
        } else {
            self.audiobook = folder;
        }
    }
}

/// Switches the folder field from kind `current_kind` to kind `new_kind`:
/// the field's text, trimmed, is kept as the folder of the current kind, and
/// the text to show is the folder of the new kind.
pub fn switch_save_folder_kind(folders: &mut SaveFolders, current_kind: u32, field_text: &str, new_kind: u32) -> (shown:
    String)
    ensures
        final(folders).slot_view(folder_slot(current_kind)) == trim_spec(field_text@),
        forall|slot: int|
            0 <= slot < 6 && slot != folder_slot(current_kind) ==> final(folders).slot_view(slot) == old(folders).slot_view(slot),
        shown@ == final(folders).slot_view(folder_slot(new_kind)),
        final(folders).slots() == old(folders).slots().update(folder_slot(current_kind), trim_spec(field_text@)),
        shown@ == final(folders).slots()[folder_slot(new_kind)],
{
    folders.set(current_kind, trim(field_text));
    let shown = folders.get(new_kind);
    proof {
        final(folders).lemma_slots();
        old(folders).lemma_slots();
        assert(final(folders).slots() =~= old(folders).slots().update(folder_slot(current_kind), trim_spec(field_text@)));
    }
    shown
}

/// Each kind of folder is kept in the field named after it; an unknown kind
/// is the audiobook folder.
pub proof fn lemma_folder_kinds_own_fields(folders: SaveFolders, kind: u32)
    ensures
        folders.slot_view(folder_slot(0)) == folders.audiobook@,
        folders.slot_view(folder_slot(1)) == folders.media@,
        folders.slot_view(folder_slot(2)) == folders.documents@,
        folders.slot_view(folder_slot(3)) == folders.radio@,
        folders.slot_view(folder_slot(4)) == folders.tv@,
        folders.slot_view(folder_slot(5)) == folders.audio_description@,
        kind > 5 ==> folders.slot_view(folder_slot(kind)) == folders.audiobook@,
        0 <= folder_slot(kind) < 6,
{
}

/// Switching the folder field to another kind and straight back shows again,
/// trimmed, the text that the field held when it was left: from kind `a`
/// with text `t` to a kind `b` of another slot, then back with any text `u`.
pub proof fn lemma_switch_back_restores_folder(slots: Seq<Seq<char>>, a: u32, b: u32, t: Seq<char>, u: Seq<char>)
    requires
        slots.len() == 6,
        folder_slot(a) != folder_slot(b),
    ensures
        slots.update(folder_slot(a), trim_spec(t)).update(folder_slot(b), trim_spec(u))[folder_slot(a)] == trim_spec(t),
{
}

/// The folders as saved: each trimmed.
pub fn trimmed_save_folders(folders: &SaveFolders) -> (r: SaveFolders)
    ensures
        forall|slot: int| r.slot_view(slot) == trim_spec(folders.slot_view(slot)),
{
    SaveFolders {
        audiobook: trim(folders.audiobook.as_str()),
        audio_description: trim(folders.audio_description.as_str()),
        media: trim(folders.media.as_str()),
        documents: trim(folders.documents.as_str()),
        radio: trim(folders.radio.as_str()),
        tv: trim(folders.tv.as_str()),
    }
}

} // verus!
