//! The state that the options dialog keeps while it is open, and how each of
//! its events changes it: the shortcut being edited, the tab shown, and each
//! tab's scroll offset and content height.

use vstd::prelude::*;

use crate::layout::{
    clamp_scroll_offset, clamp_scroll_spec, mouse_wheel_scroll_offset, nonnegative_height, tab_array_index,
    vscroll_fits, vscroll_offset, vscroll_spec, wheel_pixels_spec, wheel_scroll_spec, ControlRect,
    OPTIONS_CONTENT_TOP,
};
use crate::model::{Language, ShortcutSettings};
use crate::shortcuts::ShortcutCaptureOutcome;
use crate::tab_layout::{lemma_tab_height_bounded, relayout_tab, rows_advance, rows_rects, tab_layout, tab_rows_spec};
use crate::visibility::{tab_change, tab_change_spec, SplitControls, TabChange};

verus! {

/// The number of tabs, and so of scroll offsets and content heights.
pub const TAB_SLOTS: usize = 7;

/// What the dialog remembers between its events.
#[derive(Debug)]
pub struct OptionsState {
    /// The tab shown.
    pub active_tab: i32,
    /// Whether a tab's first control has had the focus already.
    pub focus_initialized: bool,
    /// Each tab's scroll offset.
    pub scroll_offsets: Vec<i32>,
    /// Each tab's content height, as last laid out.
    pub content_heights: Vec<i32>,
    /// The shortcuts as edited so far.
    pub shortcut_draft: ShortcutSettings,
    /// Whether a new shortcut is awaited.
    pub shortcut_capture_pending: bool,
}

impl OptionsState {
    /// One scroll offset and one content height per tab.
    pub open spec fn wf(&self) -> bool {
        &&& self.scroll_offsets@.len() == TAB_SLOTS
        &&& self.content_heights@.len() == TAB_SLOTS
    }

    /// The slot of the tab shown.
    pub open spec fn active_slot(&self) -> int {
        if self.active_tab < 0 {
            0
        } else if self.active_tab > 6 {
            6
        } else {
            self.active_tab as int
        }
    }

    /// The state of a dialog just opened with the shortcuts `draft`: the
    /// general tab, nothing scrolled or laid out yet, no shortcut awaited.
    pub fn new(draft: ShortcutSettings) -> (s: OptionsState)
        ensures
            s.wf(),
            s.active_tab == 0,
            !s.focus_initialized,
            forall|i: int| 0 <= i < 7 ==> s.scroll_offsets@[i] == 0 && s.content_heights@[i] == 0,
            s.shortcut_draft == draft,
            !s.shortcut_capture_pending,
    {
        OptionsState {
            active_tab: 0,
            focus_initialized: false,
            scroll_offsets: vec![0, 0, 0, 0, 0, 0, 0],
            content_heights: vec![0, 0, 0, 0, 0, 0, 0],
            shortcut_draft: draft,
            shortcut_capture_pending: false,
        }
    }

    /// The change button: a new shortcut is awaited.
    pub fn begin_shortcut_capture(&mut self)
        ensures
            final(self).shortcut_capture_pending,
            *final(self) == (OptionsState { shortcut_capture_pending: true, ..*old(self) }),
    {
        self.shortcut_capture_pending = true;
    }

    /// Another action chosen: no shortcut is awaited any more.
    pub fn end_shortcut_capture(&mut self)
        ensures
            *final(self) == (OptionsState { shortcut_capture_pending: false, ..*old(self) }),
    {
        self.shortcut_capture_pending = false;
    }

    /// The reset-all button: every shortcut goes back to `defaults`, and no
    /// shortcut is awaited.
    pub fn reset_all_shortcuts(&mut self, defaults: &ShortcutSettings)
        ensures
            final(self).shortcut_draft == *defaults,
            !final(self).shortcut_capture_pending,
            *final(self) == (OptionsState {
                shortcut_draft: *defaults,
                shortcut_capture_pending: false,
                ..*old(self)
            }),
    {
        self.shortcut_draft = *defaults;
        self.shortcut_capture_pending = false;
    }

    /// What a captured key or the reset button leads to: a free binding
    /// becomes the draft and ends the waiting; Escape and Tab end it; a
    /// refused or ignored key changes nothing.
    pub fn apply_shortcut_outcome(&mut self, outcome: &ShortcutCaptureOutcome)
        ensures
            *final(self) == (match *outcome {
                ShortcutCaptureOutcome::Assigned { settings } => OptionsState {
                    shortcut_draft: settings,
                    shortcut_capture_pending: false,
                    ..*old(self)
                },
                ShortcutCaptureOutcome::Cancelled => OptionsState { shortcut_capture_pending: false, ..*old(self) },
                ShortcutCaptureOutcome::CancelledMoveFocus { .. } => OptionsState {
                    shortcut_capture_pending: false,
                    ..*old(self)
                },
                _ => *old(self),
            }),
    {
        match outcome {
            ShortcutCaptureOutcome::Assigned { settings } => {
                self.shortcut_draft = *settings;
                self.shortcut_capture_pending = false;
            },
            ShortcutCaptureOutcome::Cancelled => {
                self.shortcut_capture_pending = false;
            },
            ShortcutCaptureOutcome::CancelledMoveFocus { .. } => {
                self.shortcut_capture_pending = false;
            },
            _ => {},
        }
    }

    /// A scroll-bar command on the tab shown, with a viewport
    /// `viewport_height` high: its offset becomes what the command gives
    /// (see `vscroll_spec`), and the result says whether it changed. Nothing
    /// else changes.
    pub fn scroll_active_tab(&mut self, command: u32, thumb_position: i32, viewport_height: i32) -> (changed: bool)
        requires
            old(self).wf(),
            vscroll_fits(
                old(self).scroll_offsets@[old(self).active_slot()] as int,
                command,
                old(self).content_heights@[old(self).active_slot()] as int,
                viewport_height as int,
            ),
        ensures
            final(self).wf(),
            ({
                let k = old(self).active_slot();
                let new = vscroll_spec(
                    old(self).scroll_offsets@[k] as int,
                    command,
                    thumb_position as int,
                    nonnegative_height(old(self).content_heights@[k] as int),
                    viewport_height as int,
                );
                &&& final(self).scroll_offsets@ == old(self).scroll_offsets@.update(k, new as i32)
                &&& changed == (new != old(self).scroll_offsets@[k])
                &&& *final(self) == (OptionsState { scroll_offsets: final(self).scroll_offsets, ..*old(self) })
            }),
    {
        let k = tab_array_index(self.active_tab);
        let old_offset = self.scroll_offsets[k];
        let new = vscroll_offset(old_offset, command, thumb_position, self.content_heights[k], viewport_height);
        self.scroll_offsets.set(k, new);
        new != old_offset
    }

    /// A wheel rotation of `delta` over the tab shown: with no rotation
    /// nothing happens; otherwise its offset becomes what the rotation gives
    /// (see `wheel_scroll_spec`), and the result says whether it changed.
    pub fn wheel_active_tab(&mut self, delta: i32, viewport_height: i32) -> (changed: bool)
        requires
            old(self).wf(),
            delta != 0 ==> {
                let k = old(self).active_slot();
                let offset = old(self).scroll_offsets@[k] as int;
                &&& delta > i32::MIN
                &&& wheel_pixels_spec(delta as int) <= i32::MAX
                &&& delta > 0 ==> i32::MIN <= offset - wheel_pixels_spec(delta as int)
                &&& delta < 0 ==> offset + wheel_pixels_spec(delta as int) <= i32::MAX
                &&& i32::MIN <= nonnegative_height(old(self).content_heights@[k] as int) - viewport_height <= i32::MAX
            },
        ensures
            final(self).wf(),
            delta == 0 ==> !changed && *final(self) == *old(self),
            delta != 0 ==> {
                let k = old(self).active_slot();
                let new = wheel_scroll_spec(
                    old(self).scroll_offsets@[k] as int,
                    delta as int,
                    nonnegative_height(old(self).content_heights@[k] as int),
                    viewport_height as int,
                );
                &&& final(self).scroll_offsets@ == old(self).scroll_offsets@.update(k, new as i32)
                &&& changed == (new != old(self).scroll_offsets@[k])
                &&& *final(self) == (OptionsState { scroll_offsets: final(self).scroll_offsets, ..*old(self) })
            },
    {
        let k = tab_array_index(self.active_tab);
        let old_offset = self.scroll_offsets[k];
        match mouse_wheel_scroll_offset(old_offset, delta, self.content_heights[k], viewport_height) {
            Some(new) => {
                self.scroll_offsets.set(k, new);
                new != old_offset
            },
            None => false,
        }
    }

    /// Shows tab `index` (kept between the first and the last tab): the
    /// first time, its first control takes the focus; its offset is kept
    /// within the range its last content height allows; it is laid out, and
    /// its new content height kept. Gives what the change does and where the
    /// tab's controls go.
    pub fn select_tab(&mut self, index: i32, shown: SplitControls, language: Language, viewport_height: i32) -> (r: (
        TabChange,
        Vec<ControlRect>,
    ))
        requires
            old(self).wf(),
            forall|i: int|
                0 <= i < 7 ==> i32::MIN <= #[trigger] old(self).content_heights@[i] - viewport_height <= i32::MAX,
        ensures
            final(self).wf(),
            r.0 == tab_change_spec(index, old(self).focus_initialized),
            ({
                let k = r.0.tab as int;
                let offset = clamp_scroll_spec(
                    old(self).scroll_offsets@[k] as int,
                    old(self).content_heights@[k] as int,
                    viewport_height as int,
                );
                let rows = tab_rows_spec(r.0.tab, shown, language);
                &&& final(self).active_tab == r.0.tab
                &&& final(self).focus_initialized
                &&& final(self).scroll_offsets@ == old(self).scroll_offsets@.update(k, offset as i32)
                &&& final(self).content_heights@ == old(self).content_heights@.update(
                    k,
                    (OPTIONS_CONTENT_TOP + rows_advance(rows)) as i32,
                )
                &&& r.1@ == rows_rects(rows, OPTIONS_CONTENT_TOP - offset)
                &&& final(self).shortcut_draft == old(self).shortcut_draft
                &&& final(self).shortcut_capture_pending == old(self).shortcut_capture_pending
            }),
    {
        let change = tab_change(index, self.focus_initialized);
        self.focus_initialized = true;
        self.active_tab = change.tab;
        let k = tab_array_index(change.tab);
        let offset = clamp_scroll_offset(self.scroll_offsets[k], self.content_heights[k], viewport_height);
        self.scroll_offsets.set(k, offset);
        proof {
            lemma_tab_height_bounded(change.tab, shown, language);
        }
        let (rects, height) = tab_layout(change.tab, shown, language, offset);
        self.content_heights.set(k, height);
        (change, rects)
    }

    /// Lays the tab shown out again after a change: its offset is kept within
    /// the range that its last content height (a negative one counting as 0)
    /// allows, and its new content height is kept. Gives where its controls go.
    pub fn relayout_active_tab(&mut self, shown: SplitControls, language: Language, viewport_height: i32) -> (rects:
        Vec<ControlRect>)
        requires
            old(self).wf(),
            i32::MIN <= nonnegative_height(old(self).content_heights@[old(self).active_slot()] as int)
                - viewport_height <= i32::MAX,
        ensures
            final(self).wf(),
            ({
                let k = old(self).active_slot();
                let offset = clamp_scroll_spec(
                    old(self).scroll_offsets@[k] as int,
                    nonnegative_height(old(self).content_heights@[k] as int),
                    viewport_height as int,
                );
                let rows = tab_rows_spec(old(self).active_tab, shown, language);
                &&& final(self).scroll_offsets@ == old(self).scroll_offsets@.update(k, offset as i32)
                &&& final(self).content_heights@ == old(self).content_heights@.update(
                    k,
                    (OPTIONS_CONTENT_TOP + rows_advance(rows)) as i32,
                )
                &&& rects@ == rows_rects(rows, OPTIONS_CONTENT_TOP - offset)
                &&& final(self).active_tab == old(self).active_tab
                &&& final(self).focus_initialized == old(self).focus_initialized
                &&& final(self).shortcut_draft == old(self).shortcut_draft
                &&& final(self).shortcut_capture_pending == old(self).shortcut_capture_pending
            }),
    {
        let k = tab_array_index(self.active_tab);
        let placed = relayout_tab(
            self.active_tab,
            shown,
            language,
            self.scroll_offsets[k],
            self.content_heights[k],
            viewport_height,
        );
        self.scroll_offsets.set(k, placed.scroll_offset);
        self.content_heights.set(k, placed.content_height);
        let rects = placed.rects;
        rects
    }
}

} // verus!
