//! Settings logic of the Sonarpad options dialog: languages and their codes,
//! keyboard shortcuts and their conflicts, voice profiles, speech tuning limits,
//! the scrolling of the dialog's tabs, and the mapping from the dialog's
//! choices to settings values.

pub mod apply;
pub mod choices;
pub mod dialog_state;
pub mod folders;
pub mod gemini;
pub mod i18n;
pub mod interpreter;
pub mod json;
pub mod labels;
pub mod languages;
pub mod list_entries;
pub mod layout;
pub mod model;
pub mod navigation;
pub mod order;
pub mod profiles;
pub mod shortcuts;
pub mod tab_layout;
pub mod tags;
pub mod text;
pub mod tuning;
pub mod visibility;
pub mod voices;
