//! The placing of a tab's controls: each tab is a column of rows stacked from
//! the top of the content area, moved up by the tab's scroll offset.

use vstd::prelude::*;

use crate::model::Language;
use crate::visibility::{
    SplitControls, OPTIONS_TAB_AI_TRANSCRIPTION, OPTIONS_TAB_AUDIO, OPTIONS_TAB_EDITOR, OPTIONS_TAB_GENERAL,
    OPTIONS_TAB_RSS_PODCAST, OPTIONS_TAB_SHORTCUTS, OPTIONS_TAB_VOICE,
};
use crate::layout::{
    clamp_scroll_offset, clamp_scroll_spec, ControlRect, OPTIONS_BUTTON_HEIGHT, OPTIONS_CHECKBOX_HEIGHT, OPTIONS_COMBO_HEIGHT, OPTIONS_CONTENT_TOP, OPTIONS_CONTROL_WIDTH,
    OPTIONS_CONTROL_X, OPTIONS_LABEL_WIDTH, OPTIONS_MARGIN_X, OPTIONS_ROW_HEIGHT, OPTIONS_ROW_HEIGHT_COMPACT,
};

verus! {

/// Height of an edit field.
pub const OPTIONS_EDIT_HEIGHT: i32 = 26;
/// Space between the sections of a tab.
pub const OPTIONS_SECTION_GAP: i32 = 18;

/// One step of a tab's column.
#[derive(Clone, Copy, Debug, PartialEq, Eq, Structural)]
pub enum LayoutRow {
    /// A label beside a control of the given height; one row.
    LabelControl(i32),
    /// A check box; one row.
    Checkbox,
    /// A button; one row.
    Button,
    /// A button; one compact row.
    CompactButton,
    /// A control placed on the current row, `dx` right of the controls' left
    /// edge, without moving down.
    AtRow { dx: i32, width: i32, height: i32 },
    /// A control laid over the control of the row above (an edit field in
    /// place of a list), `dx` right of the controls' left edge.
    OverPrevious { dx: i32, width: i32, height: i32 },
    /// Empty space.
    Gap(i32),
}

/// How far a row moves the column down.
pub open spec fn row_advance(row: LayoutRow) -> int {
    match row {
        LayoutRow::LabelControl(_) => OPTIONS_ROW_HEIGHT as int,
        LayoutRow::Checkbox => OPTIONS_ROW_HEIGHT as int,
        LayoutRow::Button => OPTIONS_ROW_HEIGHT as int,
        LayoutRow::CompactButton => OPTIONS_ROW_HEIGHT_COMPACT as int,
        LayoutRow::AtRow { .. } => 0,
        LayoutRow::OverPrevious { .. } => 0,
        LayoutRow::Gap(g) => g as int,
    }
}

/// The places of a row's controls when the row starts at `y`.
pub open spec fn row_rects(row: LayoutRow, y: int) -> Seq<ControlRect> {
    match row {
        LayoutRow::LabelControl(h) => seq![
            ControlRect { x: OPTIONS_MARGIN_X, y: y as i32, width: OPTIONS_LABEL_WIDTH, height: 20 },
            ControlRect { x: OPTIONS_CONTROL_X, y: (y - 2) as i32, width: OPTIONS_CONTROL_WIDTH, height: h },
        ],
        LayoutRow::Checkbox => seq![
            ControlRect { x: OPTIONS_CONTROL_X, y: y as i32, width: OPTIONS_CONTROL_WIDTH, height: OPTIONS_CHECKBOX_HEIGHT },
        ],
        LayoutRow::Button => seq![
            ControlRect { x: OPTIONS_CONTROL_X, y: y as i32, width: OPTIONS_CONTROL_WIDTH, height: OPTIONS_BUTTON_HEIGHT },
        ],
        LayoutRow::CompactButton => seq![
            ControlRect { x: OPTIONS_CONTROL_X, y: y as i32, width: OPTIONS_CONTROL_WIDTH, height: OPTIONS_BUTTON_HEIGHT },
        ],
        LayoutRow::AtRow { dx, width, height } => seq![
            ControlRect { x: (OPTIONS_CONTROL_X + dx) as i32, y: y as i32, width, height },
        ],
        LayoutRow::OverPrevious { dx, width, height } => seq![
            ControlRect { x: (OPTIONS_CONTROL_X + dx) as i32, y: (y - OPTIONS_ROW_HEIGHT - 2) as i32, width, height },
        ],
        LayoutRow::Gap(_) => Seq::empty(),
    }
}

/// A row that the layout can place: no negative space, no control pushed
/// far off to the right.
pub open spec fn row_valid(row: LayoutRow) -> bool {
    match row {
        LayoutRow::AtRow { dx, .. } => 0 <= dx <= 10000,
        LayoutRow::OverPrevious { dx, .. } => 0 <= dx <= 10000,
        LayoutRow::Gap(g) => 0 <= g <= 10000,
        _ => true,
    }
}

/// Every row can be placed.
pub open spec fn rows_valid(rows: Seq<LayoutRow>) -> bool {
    forall|i: int| 0 <= i < rows.len() ==> row_valid(#[trigger] rows[i])
}

/// How far a column of rows reaches down.
pub open spec fn rows_advance(rows: Seq<LayoutRow>) -> int
    decreases rows.len(),
{
    if rows.len() == 0 {
        0
    } else {
        rows_advance(rows.drop_last()) + row_advance(rows.last())
    }
}

/// The places of the controls of a column of rows that starts at `y`, top to bottom.
pub open spec fn rows_rects(rows: Seq<LayoutRow>, y: int) -> Seq<ControlRect>
    decreases rows.len(),
{
    if rows.len() == 0 {
        Seq::empty()
    } else {
        rows_rects(rows.drop_last(), y) + row_rects(rows.last(), y + rows_advance(rows.drop_last()))
    }
}

/// A column of placeable rows reaches down no less than any of its first rows.
proof fn lemma_prefix_advance(rows: Seq<LayoutRow>, k: int)
    requires
        rows_valid(rows),
        0 <= k <= rows.len(),
    ensures
        0 <= rows_advance(rows.take(k)) <= rows_advance(rows),
    decreases rows.len(),
{
    if rows.len() > 0 {
        let init = rows.drop_last();
        assert(rows_valid(init)) by {
            assert forall|i: int| 0 <= i < init.len() implies row_valid(#[trigger] init[i]) by {
                assert(init[i] == rows[i]);
            }
        }
        assert(row_valid(rows[rows.len() - 1]));
        if k == rows.len() {
            assert(rows.take(k) =~= rows);
            lemma_prefix_advance(init, init.len() as int);
            assert(init.take(init.len() as int) =~= init);
        } else {
            assert(rows.take(k) =~= init.take(k));
            lemma_prefix_advance(init, k);
            lemma_prefix_advance(init, init.len() as int);
            assert(init.take(init.len() as int) =~= init);
        }
    }
}

/// Scrolling a tab moves each of its controls by the scroll difference and
/// changes nothing else: the column starting at `y1` and the one starting at
/// `y2` place the same controls, each `y1 - y2` apart.
pub proof fn lemma_scroll_moves_controls(rows: Seq<LayoutRow>, y1: int, y2: int)
    requires
        rows_valid(rows),
        i32::MIN + 40 <= y1,
        i32::MIN + 40 <= y2,
        y1 + rows_advance(rows) <= i32::MAX,
        y2 + rows_advance(rows) <= i32::MAX,
    ensures
        rows_rects(rows, y1).len() == rows_rects(rows, y2).len(),
        forall|i: int|
            0 <= i < rows_rects(rows, y1).len() ==> {
                let a = #[trigger] rows_rects(rows, y1)[i];
                let b = rows_rects(rows, y2)[i];
                &&& a.x == b.x
                &&& a.width == b.width
                &&& a.height == b.height
                &&& a.y - b.y == y1 - y2
            },
    decreases rows.len(),
{
    if rows.len() > 0 {
        let init = rows.drop_last();
        let last = rows.last();
        assert(rows_valid(init)) by {
            assert forall|i: int| 0 <= i < init.len() implies row_valid(#[trigger] init[i]) by {
                assert(init[i] == rows[i]);
            }
        }
        assert(row_valid(rows[rows.len() - 1]));
        lemma_prefix_advance(init, init.len() as int);
        assert(init.take(init.len() as int) =~= init);
        lemma_scroll_moves_controls(init, y1, y2);
        let a = init.len() as int;
        let h1 = y1 + rows_advance(init);
        let h2 = y2 + rows_advance(init);
        let p1 = rows_rects(init, y1);
        let p2 = rows_rects(init, y2);
        let l1 = row_rects(last, h1);
        let l2 = row_rects(last, h2);
        assert(rows_rects(rows, y1) == p1 + l1);
        assert(rows_rects(rows, y2) == p2 + l2);
        assert forall|i: int| 0 <= i < rows_rects(rows, y1).len() implies {
            let a = #[trigger] rows_rects(rows, y1)[i];
            let b = rows_rects(rows, y2)[i];
            &&& a.x == b.x
            &&& a.width == b.width
            &&& a.height == b.height
            &&& a.y - b.y == y1 - y2
        } by {
            if i < p1.len() {
                assert(rows_rects(rows, y1)[i] == p1[i]);
                assert(rows_rects(rows, y2)[i] == p2[i]);
            } else {
                assert(rows_rects(rows, y1)[i] == l1[i - p1.len()]);
                assert(rows_rects(rows, y2)[i] == l2[i - p2.len()]);
            }
        }
    }
}

/// The places of the controls of a column of rows, scrolled by
/// `scroll_offset`, and the height of the content: how far down the column
/// reaches when it is not scrolled.
pub fn layout_rows(rows: &[LayoutRow], scroll_offset: i32) -> (r: (Vec<ControlRect>, i32))
    requires
        rows_valid(rows@),
        OPTIONS_CONTENT_TOP - scroll_offset + rows_advance(rows@) <= i32::MAX,
        OPTIONS_CONTENT_TOP + rows_advance(rows@) <= i32::MAX,
    ensures
        r.0@ == rows_rects(rows@, OPTIONS_CONTENT_TOP - scroll_offset),
        r.1 == OPTIONS_CONTENT_TOP + rows_advance(rows@),
{
    let ghost y0: int = OPTIONS_CONTENT_TOP - scroll_offset;
    proof {
        lemma_prefix_advance(rows@, rows@.len() as int);
        assert(rows@.take(rows@.len() as int) =~= rows@);
    }
    let mut rects: Vec<ControlRect> = Vec::new();
    let mut y: i32 = OPTIONS_CONTENT_TOP - scroll_offset;
    let mut i: usize = 0;
    proof {
        assert(rows@.take(0) =~= Seq::<LayoutRow>::empty());
    }
    while i < rows.len()
        invariant
            i <= rows@.len(),
            rows_valid(rows@),
            i32::MIN + 40 <= y0,
            y0 + rows_advance(rows@) <= i32::MAX,
            y == y0 + rows_advance(rows@.take(i as int)),
            rects@ == rows_rects(rows@.take(i as int), y0),
        decreases rows@.len() - i,
    {
        let row = rows[i];
        proof {
            let next = rows@.take(i + 1);
            assert(next.drop_last() =~= rows@.take(i as int));
            assert(next.last() == row);
            lemma_prefix_advance(rows@, i + 1);
            lemma_prefix_advance(rows@, i as int);
            assert(row_valid(rows@[i as int]));
        }
        let ghost before = rects@;
        match row {
            LayoutRow::LabelControl(h) => {
                rects.push(ControlRect { x: OPTIONS_MARGIN_X, y, width: OPTIONS_LABEL_WIDTH, height: 20 });
                rects.push(ControlRect { x: OPTIONS_CONTROL_X, y: y - 2, width: OPTIONS_CONTROL_WIDTH, height: h });
                y = y + OPTIONS_ROW_HEIGHT;
            },
            LayoutRow::Checkbox => {
                rects.push(
                    ControlRect { x: OPTIONS_CONTROL_X, y, width: OPTIONS_CONTROL_WIDTH, height: OPTIONS_CHECKBOX_HEIGHT },
                );
                y = y + OPTIONS_ROW_HEIGHT;
            },
            LayoutRow::Button => {
                rects.push(
                    ControlRect { x: OPTIONS_CONTROL_X, y, width: OPTIONS_CONTROL_WIDTH, height: OPTIONS_BUTTON_HEIGHT },
                );
                y = y + OPTIONS_ROW_HEIGHT;
            },
            LayoutRow::CompactButton => {
                rects.push(
                    ControlRect { x: OPTIONS_CONTROL_X, y, width: OPTIONS_CONTROL_WIDTH, height: OPTIONS_BUTTON_HEIGHT },
                );
                y = y + OPTIONS_ROW_HEIGHT_COMPACT;
            },
            LayoutRow::AtRow { dx, width, height } => {
                rects.push(ControlRect { x: OPTIONS_CONTROL_X + dx, y, width, height });
            },
            LayoutRow::OverPrevious { dx, width, height } => {
                rects.push(ControlRect { x: OPTIONS_CONTROL_X + dx, y: y - OPTIONS_ROW_HEIGHT - 2, width, height });
            },
            LayoutRow::Gap(g) => {
                y = y + g;
            },
        }
        proof {
            assert(rects@ =~= before + row_rects(row, y0 + rows_advance(rows@.take(i as int))));
        }
        i += 1;
    }
    proof {
        assert(rows@.take(rows@.len() as int) =~= rows@);
        lemma_prefix_advance(rows@, rows@.len() as int);
    }
    (rects, y + scroll_offset)
}

/// The rows of the general tab: the language, marker, opening and prompt
/// lists (the tools menu box after the opening list), the four proxy
/// fields; the update, crash report, name and context menu boxes; the file
/// associations button.
pub open spec fn general_tab_rows_spec() -> Seq<LayoutRow> {
    seq![
        LayoutRow::LabelControl(OPTIONS_COMBO_HEIGHT),
        LayoutRow::LabelControl(OPTIONS_COMBO_HEIGHT),
        LayoutRow::LabelControl(OPTIONS_COMBO_HEIGHT),
        LayoutRow::Checkbox,
        LayoutRow::LabelControl(OPTIONS_COMBO_HEIGHT),
        LayoutRow::LabelControl(OPTIONS_EDIT_HEIGHT),
        LayoutRow::LabelControl(OPTIONS_EDIT_HEIGHT),
        LayoutRow::LabelControl(OPTIONS_EDIT_HEIGHT),
        LayoutRow::LabelControl(OPTIONS_EDIT_HEIGHT),
        LayoutRow::Gap(OPTIONS_SECTION_GAP),
        LayoutRow::Checkbox,
        LayoutRow::Checkbox,
        LayoutRow::Checkbox,
        LayoutRow::Checkbox,
        LayoutRow::Checkbox,
        LayoutRow::Gap(OPTIONS_SECTION_GAP),
        LayoutRow::LabelControl(OPTIONS_BUTTON_HEIGHT),
    ]
}

/// The rows of the general tab.
pub fn general_tab_rows() -> (rows: Vec<LayoutRow>)
    ensures
        rows@ == general_tab_rows_spec(),
{
    let rows = vec![
        LayoutRow::LabelControl(OPTIONS_COMBO_HEIGHT),
        LayoutRow::LabelControl(OPTIONS_COMBO_HEIGHT),
        LayoutRow::LabelControl(OPTIONS_COMBO_HEIGHT),
        LayoutRow::Checkbox,
        LayoutRow::LabelControl(OPTIONS_COMBO_HEIGHT),
        LayoutRow::LabelControl(OPTIONS_EDIT_HEIGHT),
        LayoutRow::LabelControl(OPTIONS_EDIT_HEIGHT),
        LayoutRow::LabelControl(OPTIONS_EDIT_HEIGHT),
        LayoutRow::LabelControl(OPTIONS_EDIT_HEIGHT),
        LayoutRow::Gap(OPTIONS_SECTION_GAP),
        LayoutRow::Checkbox,
        LayoutRow::Checkbox,
        LayoutRow::Checkbox,
        LayoutRow::Checkbox,
        LayoutRow::Checkbox,
        LayoutRow::Gap(OPTIONS_SECTION_GAP),
        LayoutRow::LabelControl(OPTIONS_BUTTON_HEIGHT),
    ];
    proof {
        assert(rows@ =~= general_tab_rows_spec());
    }
    rows
}

/// The rows of the voice tab: the profile list with its rename, add and
/// delete buttons; the engine, language and voice lists, the voices button
/// and the multilingual box; rate, pitch and volume (each list with its
/// field over it), the manual box and the preview, tag and pause buttons;
/// the line split and dialogue boxes; the dialogue voice (engine, voice,
/// multilingual box, preview, rate, pitch, volume), the secondary voice box
/// and voice (engine, language, voice, multilingual box, preview, rate,
/// pitch, volume); the two quote fields and the multiline box.
pub open spec fn voice_tab_rows_spec() -> Seq<LayoutRow> {
    seq![
        LayoutRow::LabelControl(OPTIONS_COMBO_HEIGHT),
        LayoutRow::CompactButton,
        LayoutRow::AtRow { dx: 0, width: 210, height: OPTIONS_BUTTON_HEIGHT },
        LayoutRow::AtRow { dx: 220, width: 210, height: OPTIONS_BUTTON_HEIGHT },
        LayoutRow::Gap(OPTIONS_ROW_HEIGHT),
        LayoutRow::LabelControl(OPTIONS_COMBO_HEIGHT),
        LayoutRow::LabelControl(OPTIONS_COMBO_HEIGHT),
        LayoutRow::LabelControl(OPTIONS_COMBO_HEIGHT),
        LayoutRow::CompactButton,
        LayoutRow::Checkbox,
        LayoutRow::LabelControl(OPTIONS_COMBO_HEIGHT),
        LayoutRow::OverPrevious { dx: 0, width: OPTIONS_CONTROL_WIDTH, height: OPTIONS_EDIT_HEIGHT },
        LayoutRow::LabelControl(OPTIONS_COMBO_HEIGHT),
        LayoutRow::OverPrevious { dx: 0, width: OPTIONS_CONTROL_WIDTH, height: OPTIONS_EDIT_HEIGHT },
        LayoutRow::LabelControl(OPTIONS_COMBO_HEIGHT),
        LayoutRow::OverPrevious { dx: 0, width: OPTIONS_CONTROL_WIDTH, height: OPTIONS_EDIT_HEIGHT },
        LayoutRow::Checkbox,
        LayoutRow::CompactButton,
        LayoutRow::CompactButton,
        LayoutRow::CompactButton,
        LayoutRow::Gap(OPTIONS_SECTION_GAP),
        LayoutRow::Checkbox,
        LayoutRow::Checkbox,
        LayoutRow::Gap(OPTIONS_SECTION_GAP),
        LayoutRow::LabelControl(OPTIONS_COMBO_HEIGHT),
        LayoutRow::LabelControl(OPTIONS_COMBO_HEIGHT),
        LayoutRow::Checkbox,
        LayoutRow::CompactButton,
        LayoutRow::LabelControl(OPTIONS_COMBO_HEIGHT),
        LayoutRow::OverPrevious { dx: 0, width: OPTIONS_CONTROL_WIDTH, height: OPTIONS_EDIT_HEIGHT },
        LayoutRow::LabelControl(OPTIONS_COMBO_HEIGHT),
        LayoutRow::OverPrevious { dx: 0, width: OPTIONS_CONTROL_WIDTH, height: OPTIONS_EDIT_HEIGHT },
        LayoutRow::LabelControl(OPTIONS_COMBO_HEIGHT),
        LayoutRow::OverPrevious { dx: 0, width: OPTIONS_CONTROL_WIDTH, height: OPTIONS_EDIT_HEIGHT },
        LayoutRow::Checkbox,
        LayoutRow::LabelControl(OPTIONS_COMBO_HEIGHT),
        LayoutRow::LabelControl(OPTIONS_COMBO_HEIGHT),
        LayoutRow::LabelControl(OPTIONS_COMBO_HEIGHT),
        LayoutRow::Checkbox,
        LayoutRow::CompactButton,
        LayoutRow::LabelControl(OPTIONS_COMBO_HEIGHT),
        LayoutRow::OverPrevious { dx: 0, width: OPTIONS_CONTROL_WIDTH, height: OPTIONS_EDIT_HEIGHT },
        LayoutRow::LabelControl(OPTIONS_COMBO_HEIGHT),
        LayoutRow::OverPrevious { dx: 0, width: OPTIONS_CONTROL_WIDTH, height: OPTIONS_EDIT_HEIGHT },
        LayoutRow::LabelControl(OPTIONS_COMBO_HEIGHT),
        LayoutRow::OverPrevious { dx: 0, width: OPTIONS_CONTROL_WIDTH, height: OPTIONS_EDIT_HEIGHT },
        LayoutRow::LabelControl(OPTIONS_EDIT_HEIGHT),
        LayoutRow::LabelControl(OPTIONS_EDIT_HEIGHT),
        LayoutRow::Checkbox,
    ]
}

/// The rows of the voice tab tab.
pub fn voice_tab_rows() -> (rows: Vec<LayoutRow>)
    ensures
        rows@ == voice_tab_rows_spec(),
{
    let rows = vec![
        LayoutRow::LabelControl(OPTIONS_COMBO_HEIGHT),
        LayoutRow::CompactButton,
        LayoutRow::AtRow { dx: 0, width: 210, height: OPTIONS_BUTTON_HEIGHT },
        LayoutRow::AtRow { dx: 220, width: 210, height: OPTIONS_BUTTON_HEIGHT },
        LayoutRow::Gap(OPTIONS_ROW_HEIGHT),
        LayoutRow::LabelControl(OPTIONS_COMBO_HEIGHT),
        LayoutRow::LabelControl(OPTIONS_COMBO_HEIGHT),
        LayoutRow::LabelControl(OPTIONS_COMBO_HEIGHT),
        LayoutRow::CompactButton,
        LayoutRow::Checkbox,
        LayoutRow::LabelControl(OPTIONS_COMBO_HEIGHT),
        LayoutRow::OverPrevious { dx: 0, width: OPTIONS_CONTROL_WIDTH, height: OPTIONS_EDIT_HEIGHT },
        LayoutRow::LabelControl(OPTIONS_COMBO_HEIGHT),
        LayoutRow::OverPrevious { dx: 0, width: OPTIONS_CONTROL_WIDTH, height: OPTIONS_EDIT_HEIGHT },
        LayoutRow::LabelControl(OPTIONS_COMBO_HEIGHT),
        LayoutRow::OverPrevious { dx: 0, width: OPTIONS_CONTROL_WIDTH, height: OPTIONS_EDIT_HEIGHT },
        LayoutRow::Checkbox,
        LayoutRow::CompactButton,
        LayoutRow::CompactButton,
        LayoutRow::CompactButton,
        LayoutRow::Gap(OPTIONS_SECTION_GAP),
        LayoutRow::Checkbox,
        LayoutRow::Checkbox,
        LayoutRow::Gap(OPTIONS_SECTION_GAP),
        LayoutRow::LabelControl(OPTIONS_COMBO_HEIGHT),
        LayoutRow::LabelControl(OPTIONS_COMBO_HEIGHT),
        LayoutRow::Checkbox,
        LayoutRow::CompactButton,
        LayoutRow::LabelControl(OPTIONS_COMBO_HEIGHT),
        LayoutRow::OverPrevious { dx: 0, width: OPTIONS_CONTROL_WIDTH, height: OPTIONS_EDIT_HEIGHT },
        LayoutRow::LabelControl(OPTIONS_COMBO_HEIGHT),
        LayoutRow::OverPrevious { dx: 0, width: OPTIONS_CONTROL_WIDTH, height: OPTIONS_EDIT_HEIGHT },
        LayoutRow::LabelControl(OPTIONS_COMBO_HEIGHT),
        LayoutRow::OverPrevious { dx: 0, width: OPTIONS_CONTROL_WIDTH, height: OPTIONS_EDIT_HEIGHT },
        LayoutRow::Checkbox,
        LayoutRow::LabelControl(OPTIONS_COMBO_HEIGHT),
        LayoutRow::LabelControl(OPTIONS_COMBO_HEIGHT),
        LayoutRow::LabelControl(OPTIONS_COMBO_HEIGHT),
        LayoutRow::Checkbox,
        LayoutRow::CompactButton,
        LayoutRow::LabelControl(OPTIONS_COMBO_HEIGHT),
        LayoutRow::OverPrevious { dx: 0, width: OPTIONS_CONTROL_WIDTH, height: OPTIONS_EDIT_HEIGHT },
        LayoutRow::LabelControl(OPTIONS_COMBO_HEIGHT),
        LayoutRow::OverPrevious { dx: 0, width: OPTIONS_CONTROL_WIDTH, height: OPTIONS_EDIT_HEIGHT },
        LayoutRow::LabelControl(OPTIONS_COMBO_HEIGHT),
        LayoutRow::OverPrevious { dx: 0, width: OPTIONS_CONTROL_WIDTH, height: OPTIONS_EDIT_HEIGHT },
        LayoutRow::LabelControl(OPTIONS_EDIT_HEIGHT),
        LayoutRow::LabelControl(OPTIONS_EDIT_HEIGHT),
        LayoutRow::Checkbox,
    ];
    proof {
        assert(rows@ =~= voice_tab_rows_spec());
    }
    rows
}

/// The rows of the editor tab: six boxes, the ten lists and fields of
/// spelling, dictionary, wrapping and indentation, two buttons, then the
/// cursor box.
pub open spec fn editor_tab_rows_spec() -> Seq<LayoutRow> {
    seq![
        LayoutRow::Checkbox,
        LayoutRow::Checkbox,
        LayoutRow::Checkbox,
        LayoutRow::Checkbox,
        LayoutRow::Checkbox,
        LayoutRow::Checkbox,
        LayoutRow::LabelControl(OPTIONS_COMBO_HEIGHT),
        LayoutRow::LabelControl(OPTIONS_COMBO_HEIGHT),
        LayoutRow::LabelControl(OPTIONS_COMBO_HEIGHT),
        LayoutRow::LabelControl(OPTIONS_EDIT_HEIGHT),
        LayoutRow::LabelControl(OPTIONS_COMBO_HEIGHT),
        LayoutRow::LabelControl(OPTIONS_COMBO_HEIGHT),
        LayoutRow::LabelControl(OPTIONS_COMBO_HEIGHT),
        LayoutRow::LabelControl(OPTIONS_EDIT_HEIGHT),
        LayoutRow::LabelControl(OPTIONS_EDIT_HEIGHT),
        LayoutRow::CompactButton,
        LayoutRow::CompactButton,
        LayoutRow::Gap(OPTIONS_SECTION_GAP),
        LayoutRow::Checkbox,
    ]
}

/// The rows of the editor tab tab.
pub fn editor_tab_rows() -> (rows: Vec<LayoutRow>)
    ensures
        rows@ == editor_tab_rows_spec(),
{
    let rows = vec![
        LayoutRow::Checkbox,
        LayoutRow::Checkbox,
        LayoutRow::Checkbox,
        LayoutRow::Checkbox,
        LayoutRow::Checkbox,
        LayoutRow::Checkbox,
        LayoutRow::LabelControl(OPTIONS_COMBO_HEIGHT),
        LayoutRow::LabelControl(OPTIONS_COMBO_HEIGHT),
        LayoutRow::LabelControl(OPTIONS_COMBO_HEIGHT),
        LayoutRow::LabelControl(OPTIONS_EDIT_HEIGHT),
        LayoutRow::LabelControl(OPTIONS_COMBO_HEIGHT),
        LayoutRow::LabelControl(OPTIONS_COMBO_HEIGHT),
        LayoutRow::LabelControl(OPTIONS_COMBO_HEIGHT),
        LayoutRow::LabelControl(OPTIONS_EDIT_HEIGHT),
        LayoutRow::LabelControl(OPTIONS_EDIT_HEIGHT),
        LayoutRow::CompactButton,
        LayoutRow::CompactButton,
        LayoutRow::Gap(OPTIONS_SECTION_GAP),
        LayoutRow::Checkbox,
    ];
    proof {
        assert(rows@ =~= editor_tab_rows_spec());
    }
    rows
}

/// The rows of the transcription tab: model list and box, language list and
/// box; the device list; the key field and its button, the Gemini model list
/// and its button.
pub open spec fn ai_transcription_tab_rows_spec() -> Seq<LayoutRow> {
    seq![
        LayoutRow::LabelControl(OPTIONS_COMBO_HEIGHT),
        LayoutRow::Checkbox,
        LayoutRow::LabelControl(OPTIONS_COMBO_HEIGHT),
        LayoutRow::Checkbox,
        LayoutRow::Gap(OPTIONS_SECTION_GAP),
        LayoutRow::LabelControl(OPTIONS_COMBO_HEIGHT),
        LayoutRow::Gap(OPTIONS_SECTION_GAP),
        LayoutRow::LabelControl(OPTIONS_EDIT_HEIGHT),
        LayoutRow::Button,
        LayoutRow::LabelControl(OPTIONS_COMBO_HEIGHT),
        LayoutRow::Button,
    ]
}

/// The rows of the ai transcription tab tab.
pub fn ai_transcription_tab_rows() -> (rows: Vec<LayoutRow>)
    ensures
        rows@ == ai_transcription_tab_rows_spec(),
{
    let rows = vec![
        LayoutRow::LabelControl(OPTIONS_COMBO_HEIGHT),
        LayoutRow::Checkbox,
        LayoutRow::LabelControl(OPTIONS_COMBO_HEIGHT),
        LayoutRow::Checkbox,
        LayoutRow::Gap(OPTIONS_SECTION_GAP),
        LayoutRow::LabelControl(OPTIONS_COMBO_HEIGHT),
        LayoutRow::Gap(OPTIONS_SECTION_GAP),
        LayoutRow::LabelControl(OPTIONS_EDIT_HEIGHT),
        LayoutRow::Button,
        LayoutRow::LabelControl(OPTIONS_COMBO_HEIGHT),
        LayoutRow::Button,
    ];
    proof {
        assert(rows@ =~= ai_transcription_tab_rows_spec());
    }
    rows
}

/// The rows of the shortcuts tab: the action list, the shortcut field, the
/// change and reset buttons side by side, then the reset-all button a row
/// further down.
pub open spec fn shortcuts_tab_rows_spec() -> Seq<LayoutRow> {
    seq![
        LayoutRow::LabelControl(OPTIONS_COMBO_HEIGHT),
        LayoutRow::LabelControl(OPTIONS_EDIT_HEIGHT),
        LayoutRow::AtRow { dx: 0, width: 211, height: OPTIONS_BUTTON_HEIGHT },
        LayoutRow::AtRow { dx: 219, width: 211, height: OPTIONS_BUTTON_HEIGHT },
        LayoutRow::Gap(OPTIONS_ROW_HEIGHT),
        LayoutRow::Button,
    ]
}

/// The rows of the shortcuts tab tab.
pub fn shortcuts_tab_rows() -> (rows: Vec<LayoutRow>)
    ensures
        rows@ == shortcuts_tab_rows_spec(),
{
    let rows = vec![
        LayoutRow::LabelControl(OPTIONS_COMBO_HEIGHT),
        LayoutRow::LabelControl(OPTIONS_EDIT_HEIGHT),
        LayoutRow::AtRow { dx: 0, width: 211, height: OPTIONS_BUTTON_HEIGHT },
        LayoutRow::AtRow { dx: 219, width: 211, height: OPTIONS_BUTTON_HEIGHT },
        LayoutRow::Gap(OPTIONS_ROW_HEIGHT),
        LayoutRow::Button,
    ];
    proof {
        assert(rows@ =~= shortcuts_tab_rows_spec());
    }
    rows
}

/// The rows of the RSS and podcast tab: three lists, two boxes, six lists;
/// the three podcast index fields and the sign-up button; for the Italian
/// interface the RAI Luce code field.
pub open spec fn rss_podcast_tab_rows_spec(language: Language) -> Seq<LayoutRow> {
    seq![
        LayoutRow::LabelControl(OPTIONS_COMBO_HEIGHT),
        LayoutRow::LabelControl(OPTIONS_COMBO_HEIGHT),
        LayoutRow::LabelControl(OPTIONS_COMBO_HEIGHT),
        LayoutRow::Checkbox,
        LayoutRow::Checkbox,
        LayoutRow::LabelControl(OPTIONS_COMBO_HEIGHT),
        LayoutRow::LabelControl(OPTIONS_COMBO_HEIGHT),
        LayoutRow::LabelControl(OPTIONS_COMBO_HEIGHT),
        LayoutRow::LabelControl(OPTIONS_COMBO_HEIGHT),
        LayoutRow::LabelControl(OPTIONS_COMBO_HEIGHT),
        LayoutRow::LabelControl(OPTIONS_COMBO_HEIGHT),
        LayoutRow::Gap(OPTIONS_SECTION_GAP),
        LayoutRow::LabelControl(OPTIONS_EDIT_HEIGHT),
        LayoutRow::LabelControl(OPTIONS_EDIT_HEIGHT),
        LayoutRow::LabelControl(OPTIONS_EDIT_HEIGHT),
        LayoutRow::Button,
    ] + if language == Language::Italian {
        seq![LayoutRow::LabelControl(OPTIONS_EDIT_HEIGHT)]
    } else {
        Seq::empty()
    }
}

/// The rows of the RSS and podcast tab.
pub fn rss_podcast_tab_rows(language: Language) -> (rows: Vec<LayoutRow>)
    ensures
        rows@ == rss_podcast_tab_rows_spec(language),
{
    let mut rows = vec![
        LayoutRow::LabelControl(OPTIONS_COMBO_HEIGHT),
        LayoutRow::LabelControl(OPTIONS_COMBO_HEIGHT),
        LayoutRow::LabelControl(OPTIONS_COMBO_HEIGHT),
        LayoutRow::Checkbox,
        LayoutRow::Checkbox,
        LayoutRow::LabelControl(OPTIONS_COMBO_HEIGHT),
        LayoutRow::LabelControl(OPTIONS_COMBO_HEIGHT),
        LayoutRow::LabelControl(OPTIONS_COMBO_HEIGHT),
        LayoutRow::LabelControl(OPTIONS_COMBO_HEIGHT),
        LayoutRow::LabelControl(OPTIONS_COMBO_HEIGHT),
        LayoutRow::LabelControl(OPTIONS_COMBO_HEIGHT),
        LayoutRow::Gap(OPTIONS_SECTION_GAP),
        LayoutRow::LabelControl(OPTIONS_EDIT_HEIGHT),
        LayoutRow::LabelControl(OPTIONS_EDIT_HEIGHT),
        LayoutRow::LabelControl(OPTIONS_EDIT_HEIGHT),
        LayoutRow::Button,
    ];
    if language == Language::Italian {
        rows.push(LayoutRow::LabelControl(OPTIONS_EDIT_HEIGHT));
    }
    proof {
        assert(rows@ =~= rss_podcast_tab_rows_spec(language));
    }
    rows
}

/// The rows of the audio tab: the skip and volume lists, the save folder
/// field with its browse button over it; the recording box, for the Italian
/// interface the audio description box; the split list, the minutes and
/// start number lists for a split by time, the naming and announcement
/// lists, the number of parts for a split into parts, the marker field and
/// its box for a split by text; the two boxes after it, the cache list, the
/// ducking field and the last button.
pub open spec fn audio_tab_rows_spec(shown: SplitControls, language: Language) -> Seq<LayoutRow> {
    seq![
        LayoutRow::LabelControl(OPTIONS_COMBO_HEIGHT),
        LayoutRow::LabelControl(OPTIONS_COMBO_HEIGHT),
        LayoutRow::LabelControl(OPTIONS_EDIT_HEIGHT),
        LayoutRow::OverPrevious { dx: 0, width: 352, height: OPTIONS_EDIT_HEIGHT },
        LayoutRow::OverPrevious { dx: 358, width: 72, height: OPTIONS_BUTTON_HEIGHT },
        LayoutRow::Checkbox,
    ] + (if language == Language::Italian {
        seq![LayoutRow::Checkbox]
    } else {
        Seq::empty()
    }) + seq![LayoutRow::LabelControl(OPTIONS_COMBO_HEIGHT)] + (if shown.time {
        seq![LayoutRow::LabelControl(OPTIONS_COMBO_HEIGHT), LayoutRow::LabelControl(OPTIONS_COMBO_HEIGHT)]
    } else {
        Seq::empty()
    }) + seq![LayoutRow::LabelControl(OPTIONS_COMBO_HEIGHT), LayoutRow::LabelControl(OPTIONS_COMBO_HEIGHT)] + (
    if shown.parts {
        seq![LayoutRow::LabelControl(OPTIONS_EDIT_HEIGHT)]
    } else {
        Seq::empty()
    }) + (if shown.text {
        seq![LayoutRow::LabelControl(OPTIONS_EDIT_HEIGHT), LayoutRow::Checkbox]
    } else {
        Seq::empty()
    }) + seq![
        LayoutRow::Checkbox,
        LayoutRow::Gap(OPTIONS_SECTION_GAP),
        LayoutRow::Checkbox,
        LayoutRow::LabelControl(OPTIONS_COMBO_HEIGHT),
        LayoutRow::LabelControl(OPTIONS_EDIT_HEIGHT),
        LayoutRow::Button,
    ]
}

/// The rows of the audio tab, for the split controls `shown` and the
/// interface language.
pub fn audio_tab_rows(shown: SplitControls, language: Language) -> (rows: Vec<LayoutRow>)
    ensures
        rows@ == audio_tab_rows_spec(shown, language),
{
    let mut rows = vec![
        LayoutRow::LabelControl(OPTIONS_COMBO_HEIGHT),
        LayoutRow::LabelControl(OPTIONS_COMBO_HEIGHT),
        LayoutRow::LabelControl(OPTIONS_EDIT_HEIGHT),
        LayoutRow::OverPrevious { dx: 0, width: 352, height: OPTIONS_EDIT_HEIGHT },
        LayoutRow::OverPrevious { dx: 358, width: 72, height: OPTIONS_BUTTON_HEIGHT },
        LayoutRow::Checkbox,
    ];
    if language == Language::Italian {
        rows.push(LayoutRow::Checkbox);
    }
    rows.push(LayoutRow::LabelControl(OPTIONS_COMBO_HEIGHT));
    if shown.time {
        rows.push(LayoutRow::LabelControl(OPTIONS_COMBO_HEIGHT));
        rows.push(LayoutRow::LabelControl(OPTIONS_COMBO_HEIGHT));
    }
    rows.push(LayoutRow::LabelControl(OPTIONS_COMBO_HEIGHT));
    rows.push(LayoutRow::LabelControl(OPTIONS_COMBO_HEIGHT));
    if shown.parts {
        rows.push(LayoutRow::LabelControl(OPTIONS_EDIT_HEIGHT));
    }
    if shown.text {
        rows.push(LayoutRow::LabelControl(OPTIONS_EDIT_HEIGHT));
        rows.push(LayoutRow::Checkbox);
    }
    rows.push(LayoutRow::Checkbox);
    rows.push(LayoutRow::Gap(OPTIONS_SECTION_GAP));
    rows.push(LayoutRow::Checkbox);
    rows.push(LayoutRow::LabelControl(OPTIONS_COMBO_HEIGHT));
    rows.push(LayoutRow::LabelControl(OPTIONS_EDIT_HEIGHT));
    rows.push(LayoutRow::Button);
    proof {
        assert(rows@ =~= audio_tab_rows_spec(shown, language));
    }
    rows
}

/// The rows of tab `tab` (none for a number that names no tab).
pub open spec fn tab_rows_spec(tab: i32, shown: SplitControls, language: Language) -> Seq<LayoutRow> {
    if tab == OPTIONS_TAB_GENERAL {
        general_tab_rows_spec()
    } else if tab == OPTIONS_TAB_VOICE {
        voice_tab_rows_spec()
    } else if tab == OPTIONS_TAB_EDITOR {
        editor_tab_rows_spec()
    } else if tab == OPTIONS_TAB_AUDIO {
        audio_tab_rows_spec(shown, language)
    } else if tab == OPTIONS_TAB_RSS_PODCAST {
        rss_podcast_tab_rows_spec(language)
    } else if tab == OPTIONS_TAB_AI_TRANSCRIPTION {
        ai_transcription_tab_rows_spec()
    } else if tab == OPTIONS_TAB_SHORTCUTS {
        shortcuts_tab_rows_spec()
    } else {
        Seq::empty()
    }
}

/// The rows of tab `tab`.
pub fn tab_rows(tab: i32, shown: SplitControls, language: Language) -> (rows: Vec<LayoutRow>)
    ensures
        rows@ == tab_rows_spec(tab, shown, language),
{
    match tab {
        OPTIONS_TAB_GENERAL => general_tab_rows(),
        OPTIONS_TAB_VOICE => voice_tab_rows(),
        OPTIONS_TAB_EDITOR => editor_tab_rows(),
        OPTIONS_TAB_AUDIO => audio_tab_rows(shown, language),
        OPTIONS_TAB_RSS_PODCAST => rss_podcast_tab_rows(language),
        OPTIONS_TAB_AI_TRANSCRIPTION => ai_transcription_tab_rows(),
        OPTIONS_TAB_SHORTCUTS => shortcuts_tab_rows(),
        _ => Vec::new(),
    }
}

/// A column of placeable rows reaches down at least 0 and at most 10000 per row.
proof fn lemma_advance_bounded(rows: Seq<LayoutRow>)
    requires
        rows_valid(rows),
    ensures
        0 <= rows_advance(rows) <= 10000 * rows.len(),
    decreases rows.len(),
{
    if rows.len() > 0 {
        let init = rows.drop_last();
        assert(rows_valid(init)) by {
            assert forall|i: int| 0 <= i < init.len() implies row_valid(#[trigger] init[i]) by {
                assert(init[i] == rows[i]);
            }
        }
        assert(row_valid(rows[rows.len() - 1]));
        lemma_advance_bounded(init);
    }
}

/// The rows of every tab can be placed, and no tab has more than 60 rows.
proof fn lemma_tab_rows_valid(tab: i32, shown: SplitControls, language: Language)
    ensures
        rows_valid(tab_rows_spec(tab, shown, language)),
        tab_rows_spec(tab, shown, language).len() <= 60,
{
    let rows = tab_rows_spec(tab, shown, language);
    assert forall|i: int| 0 <= i < rows.len() implies row_valid(#[trigger] rows[i]) by {
    }
}

/// No tab's rows reach further down than 600000.
pub proof fn lemma_tab_height_bounded(tab: i32, shown: SplitControls, language: Language)
    ensures
        0 <= rows_advance(tab_rows_spec(tab, shown, language)) <= 600000,
{
    lemma_tab_rows_valid(tab, shown, language);
    lemma_advance_bounded(tab_rows_spec(tab, shown, language));
}

/// The places of the controls of tab `tab` scrolled by `scroll_offset`, and
/// the height of its content.
pub fn tab_layout(tab: i32, shown: SplitControls, language: Language, scroll_offset: i32) -> (r: (Vec<ControlRect>, i32))
    requires
        OPTIONS_CONTENT_TOP - scroll_offset + rows_advance(tab_rows_spec(tab, shown, language)) <= i32::MAX,
    ensures
        r.0@ == rows_rects(tab_rows_spec(tab, shown, language), OPTIONS_CONTENT_TOP - scroll_offset),
        r.1 == OPTIONS_CONTENT_TOP + rows_advance(tab_rows_spec(tab, shown, language)),
{
    let rows = tab_rows(tab, shown, language);
    proof {
        lemma_tab_rows_valid(tab, shown, language);
        lemma_advance_bounded(rows@);
    }
    layout_rows(rows.as_slice(), scroll_offset)
}

/// A tab placed again: its scroll offset kept within range, the places of
/// its controls and the height of its content.
#[derive(Debug)]
pub struct TabRelayout {
    pub scroll_offset: i32,
    pub rects: Vec<ControlRect>,
    pub content_height: i32,
}

/// Places tab `tab` again after a change: its offset `scroll_offset` is first
/// kept within the range that its last content height `content_height` (a
/// negative height counts as 0) and the viewport's height allow, then the
/// tab is laid out at that offset.
pub fn relayout_tab(
    tab: i32,
    shown: SplitControls,
    language: Language,
    scroll_offset: i32,
    content_height: i32,
    viewport_height: i32,
) -> (r: TabRelayout)
    requires
        i32::MIN <= (if content_height > 0 { content_height as int } else { 0 }) - viewport_height <= i32::MAX,
    ensures
        r.scroll_offset == clamp_scroll_spec(
            scroll_offset as int,
            if content_height > 0 { content_height as int } else { 0 },
            viewport_height as int,
        ),
        r.rects@ == rows_rects(tab_rows_spec(tab, shown, language), OPTIONS_CONTENT_TOP - r.scroll_offset),
        r.content_height == OPTIONS_CONTENT_TOP + rows_advance(tab_rows_spec(tab, shown, language)),
{
    let content = if content_height > 0 {
        content_height
    } else {
        0
    };
    let offset = clamp_scroll_offset(scroll_offset, content, viewport_height);
    proof {
        lemma_tab_rows_valid(tab, shown, language);
        lemma_advance_bounded(tab_rows_spec(tab, shown, language));
    }
    let (rects, height) = tab_layout(tab, shown, language, offset);
    TabRelayout { scroll_offset: offset, rects, content_height: height }
}

} // verus!
