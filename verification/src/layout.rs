//! Geometry of the options dialog: the rows of its tabs, its buttons, and the
//! vertical scrolling of a tab's content.

use vstd::prelude::*;

use crate::text::eq_ignore_ascii_case;
use crate::text::eq_ignore_ascii_case_spec;

verus! {

/// Number of tabs.
pub const OPTIONS_TAB_COUNT: i32 = 7;
/// Top of the tabs' content.
pub const OPTIONS_CONTENT_TOP: i32 = 58;
/// Left margin of the labels.
pub const OPTIONS_MARGIN_X: i32 = 24;
/// Width of the labels.
pub const OPTIONS_LABEL_WIDTH: i32 = 285;
/// Left edge of the controls.
pub const OPTIONS_CONTROL_X: i32 = 327;
/// Width of the controls.
pub const OPTIONS_CONTROL_WIDTH: i32 = 430;
/// Height of a row.
pub const OPTIONS_ROW_HEIGHT: i32 = 36;
/// Height of a compact row.
pub const OPTIONS_ROW_HEIGHT_COMPACT: i32 = 30;
/// Height of a check box.
pub const OPTIONS_CHECKBOX_HEIGHT: i32 = 24;
/// Height of a button.
pub const OPTIONS_BUTTON_HEIGHT: i32 = 30;
/// Height of a closed combo box.
pub const OPTIONS_COMBO_HEIGHT: i32 = 30;
/// Height of an open combo box.
pub const OPTIONS_COMBO_DROPDOWN_HEIGHT: i32 = 180;
/// Height of one scroll line.
pub const OPTIONS_SCROLL_LINE: i32 = 32;
/// Gap left under a tab's content.
pub const OPTIONS_CONTENT_BOTTOM_GAP: i32 = 48;
/// Mouse-wheel units of one notch.
pub const OPTIONS_WHEEL_DELTA: i32 = 120;

/// A control's position and size.
#[derive(Clone, Copy, Debug, PartialEq, Eq, Structural)]
pub struct ControlRect {
    pub x: i32,
    pub y: i32,
    pub width: i32,
    pub height: i32,
}

/// The index of a tab's scroll state: the tab number clamped into `0..7`.
pub fn tab_array_index(index: i32) -> (r: usize)
    ensures
        r == (if index < 0 {
            0
        } else if index > 6 {
            6
        } else {
            index as int
        }),
        r < 7,
{
    if index < 0 {
        0
    } else if index > 6 {
        6
    } else {
        index as usize
    }
}

/// The largest scroll offset of a tab: how far its content overflows the viewport.
pub open spec fn max_scroll_spec(content_height: int, viewport_height: int) -> int {
    if content_height - viewport_height > 0 {
        content_height - viewport_height
    } else {
        0
    }
}

/// A scroll offset kept within `0..=max_scroll`.
pub open spec fn clamp_scroll_spec(offset: int, content_height: int, viewport_height: int) -> int {
    let max = max_scroll_spec(content_height, viewport_height);
    if offset < 0 {
        0
    } else if offset > max {
        max
    } else {
        offset
    }
}

/// `offset` kept within the scroll range of a tab.
pub fn clamp_scroll_offset(offset: i32, content_height: i32, viewport_height: i32) -> (r: i32)
    requires
        i32::MIN <= content_height - viewport_height <= i32::MAX,
    ensures
        r == clamp_scroll_spec(offset as int, content_height as int, viewport_height as int),
        0 <= r <= max_scroll_spec(content_height as int, viewport_height as int),
{
    let diff = content_height - viewport_height;
    let max_offset = if diff > 0 {
        diff
    } else {
        0
    };
    if offset < 0 {
        0
    } else if offset > max_offset {
        max_offset
    } else {
        offset
    }
}

/// Clamping a clamped offset changes nothing.
pub proof fn lemma_clamp_scroll_idempotent(offset: int, content_height: int, viewport_height: int)
    ensures
        clamp_scroll_spec(clamp_scroll_spec(offset, content_height, viewport_height), content_height, viewport_height)
            == clamp_scroll_spec(offset, content_height, viewport_height),
{
}

/// What the dialog's vertical scroll bar shows for a tab.
#[derive(Clone, Copy, Debug, PartialEq, Eq, Structural)]
pub struct ScrollbarState {
    /// The end of the scroll range (its start is 0).
    pub max: i32,
    /// The page size: the viewport's height, at least 1.
    pub page: u32,
    /// The thumb's position.
    pub position: i32,
    /// Whether the bar is shown: only when the content overflows.
    pub visible: bool,
}

/// The scroll bar of a tab whose content is `content_height` high (a negative
/// height counts as 0), seen through a viewport `viewport_height` high, with
/// the tab scrolled to `offset`.
pub fn options_scrollbar(content_height: i32, viewport_height: i32, offset: i32) -> (s: ScrollbarState)
    requires
        i32::MIN <= (if content_height > 0 { content_height as int } else { 0 }) - viewport_height <= i32::MAX,
    ensures
        ({
            let content = if content_height > 0 { content_height as int } else { 0 };
            &&& s.max == max_scroll_spec(content, viewport_height as int)
            &&& s.page == (if viewport_height > 1 { viewport_height as int } else { 1 })
            &&& s.position == clamp_scroll_spec(offset as int, content, viewport_height as int)
            &&& s.visible == (s.max > 0)
        }),
{
    let content = if content_height > 0 {
        content_height
    } else {
        0
    };
    let diff = content - viewport_height;
    let max = if diff > 0 {
        diff
    } else {
        0
    };
    let page: u32 = if viewport_height > 1 {
        viewport_height as u32
    } else {
        1
    };
    let position = clamp_scroll_offset(offset, content, viewport_height);
    ScrollbarState { max, page, position, visible: max > 0 }
}

/// The height of the area that shows a tab's content, for a client area
/// whose bottom is at `client_bottom`.
pub open spec fn viewport_height_spec(client_bottom: int) -> int {
    let button_y = if client_bottom - 40 > 58 {
        client_bottom - 40
    } else {
        58
    };
    if button_y - 58 - 48 > 0 {
        button_y - 58 - 48
    } else {
        0
    }
}

/// The height of the area that shows a tab's content.
pub fn options_viewport_height(client_bottom: i32) -> (r: i32)
    requires
        client_bottom >= i32::MIN + 40,
    ensures
        r == viewport_height_spec(client_bottom as int),
        r >= 0,
{
    let b = client_bottom - 40;
    let button_y = if b > OPTIONS_CONTENT_TOP {
        b
    } else {
        OPTIONS_CONTENT_TOP
    };
    let h = button_y - OPTIONS_CONTENT_TOP - OPTIONS_CONTENT_BOTTOM_GAP;
    if h > 0 {
        h
    } else {
        0
    }
}

/// Where the OK and Cancel buttons go, for a client area of the given right
/// and bottom edges: `(ok, cancel)`.
pub fn dialog_button_rects(client_right: i32, client_bottom: i32) -> (r: (ControlRect, ControlRect))
    requires
        client_right >= i32::MIN + 224,
        client_bottom >= i32::MIN + 48,
    ensures
        ({
            let y = if client_bottom - 48 > 58 {
                client_bottom - 48
            } else {
                58
            };
            &&& r.0 == (ControlRect { x: (client_right - 224) as i32, y: y as i32, width: 100, height: 30 })
            &&& r.1 == (ControlRect { x: (client_right - 116) as i32, y: y as i32, width: 100, height: 30 })
        }),
{
    let b = client_bottom - 48;
    let y = if b > OPTIONS_CONTENT_TOP {
        b
    } else {
        OPTIONS_CONTENT_TOP
    };
    (
        ControlRect { x: client_right - 224, y, width: 100, height: 30 },
        ControlRect { x: client_right - 116, y, width: 100, height: 30 },
    )
}

/// The height to give a control: a combo box of the standard height gets
/// room for its drop-down list.
pub fn adjusted_control_height(height: i32, is_combo: bool) -> (r: i32)
    ensures
        r == (if height != OPTIONS_COMBO_HEIGHT || !is_combo {
            height
        } else {
            OPTIONS_COMBO_DROPDOWN_HEIGHT
        }),
{
    if height != OPTIONS_COMBO_HEIGHT || !is_combo {
        height
    } else {
        OPTIONS_COMBO_DROPDOWN_HEIGHT
    }
}

/// Whether a window class name is that of a combo box.
pub fn is_combo_box(class_name: &str) -> (r: bool)
    ensures
        r == eq_ignore_ascii_case_spec(class_name@, "ComboBox"@),
{
    eq_ignore_ascii_case(class_name, "ComboBox")
}

/// A row of a label and a control at `y`: the label's place, the control's
/// place, and the `y` of the next row.
pub fn layout_label_control(y: i32, control_height: i32) -> (r: (ControlRect, ControlRect, i32))
    requires
        i32::MIN + 2 <= y <= i32::MAX - OPTIONS_ROW_HEIGHT,
    ensures
        r.0 == (ControlRect { x: OPTIONS_MARGIN_X, y, width: OPTIONS_LABEL_WIDTH, height: 20 }),
        r.1 == (ControlRect {
            x: OPTIONS_CONTROL_X,
            y: (y - 2) as i32,
            width: OPTIONS_CONTROL_WIDTH,
            height: control_height,
        }),
        r.2 == y + OPTIONS_ROW_HEIGHT,
{
    (
        ControlRect { x: OPTIONS_MARGIN_X, y, width: OPTIONS_LABEL_WIDTH, height: 20 },
        ControlRect { x: OPTIONS_CONTROL_X, y: y - 2, width: OPTIONS_CONTROL_WIDTH, height: control_height },
        y + OPTIONS_ROW_HEIGHT,
    )
}

/// A row holding one control of the given height at `y`, and the `y` of the
/// next row, `row_height` further down.
fn control_row(y: i32, height: i32, row_height: i32) -> (r: (ControlRect, i32))
    requires
        0 <= row_height,
        y <= i32::MAX - row_height,
    ensures
        r.0 == (ControlRect { x: OPTIONS_CONTROL_X, y, width: OPTIONS_CONTROL_WIDTH, height }),
        r.1 == y + row_height,
{
    (ControlRect { x: OPTIONS_CONTROL_X, y, width: OPTIONS_CONTROL_WIDTH, height }, y + row_height)
}

/// A check box at `y` and the `y` of the next row.
pub fn layout_checkbox(y: i32) -> (r: (ControlRect, i32))
    requires
        y <= i32::MAX - OPTIONS_ROW_HEIGHT,
    ensures
        r.0 == (ControlRect { x: OPTIONS_CONTROL_X, y, width: OPTIONS_CONTROL_WIDTH, height: OPTIONS_CHECKBOX_HEIGHT }),
        r.1 == y + OPTIONS_ROW_HEIGHT,
{
    control_row(y, OPTIONS_CHECKBOX_HEIGHT, OPTIONS_ROW_HEIGHT)
}

/// A button at `y` and the `y` of the next row.
pub fn layout_button(y: i32) -> (r: (ControlRect, i32))
    requires
        y <= i32::MAX - OPTIONS_ROW_HEIGHT,
    ensures
        r.0 == (ControlRect { x: OPTIONS_CONTROL_X, y, width: OPTIONS_CONTROL_WIDTH, height: OPTIONS_BUTTON_HEIGHT }),
        r.1 == y + OPTIONS_ROW_HEIGHT,
{
    control_row(y, OPTIONS_BUTTON_HEIGHT, OPTIONS_ROW_HEIGHT)
}

/// A button at `y` in a compact row, and the `y` of the next row.
pub fn layout_button_compact(y: i32) -> (r: (ControlRect, i32))
    requires
        y <= i32::MAX - OPTIONS_ROW_HEIGHT_COMPACT,
    ensures
        r.0 == (ControlRect { x: OPTIONS_CONTROL_X, y, width: OPTIONS_CONTROL_WIDTH, height: OPTIONS_BUTTON_HEIGHT }),
        r.1 == y + OPTIONS_ROW_HEIGHT_COMPACT,
{
    control_row(y, OPTIONS_BUTTON_HEIGHT, OPTIONS_ROW_HEIGHT_COMPACT)
}

/// A control of the given height at `y` in a compact row, and the `y` of the next row.
pub fn layout_button_compact_height(y: i32, height: i32) -> (r: (ControlRect, i32))
    requires
        y <= i32::MAX - OPTIONS_ROW_HEIGHT_COMPACT,
    ensures
        r.0 == (ControlRect { x: OPTIONS_CONTROL_X, y, width: OPTIONS_CONTROL_WIDTH, height }),
        r.1 == y + OPTIONS_ROW_HEIGHT_COMPACT,
{
    control_row(y, height, OPTIONS_ROW_HEIGHT_COMPACT)
}

/// The wheel rotation in a `WM_MOUSEWHEEL` word parameter: its high 16 bits
/// read as a signed number.
pub open spec fn wheel_delta_spec(wparam: usize) -> int {
    let hw = (wparam as int / 65536) % 65536;
    if hw >= 32768 {
        hw - 65536
    } else {
        hw
    }
}

/// The wheel rotation in a `WM_MOUSEWHEEL` word parameter.
pub fn wheel_delta_from_wparam(wparam: usize) -> (r: i32)
    ensures
        r == wheel_delta_spec(wparam),
{
    let hw: usize = (wparam / 65536) % 65536;
    if hw >= 32768 {
        (hw as i32) - 65536
    } else {
        hw as i32
    }
}

/// How far a wheel rotation of `delta` scrolls: one line per notch, at least one.
pub open spec fn wheel_pixels_spec(delta: int) -> int {
    let abs = if delta < 0 {
        -delta
    } else {
        delta
    };
    let steps = if abs / 120 > 1 {
        abs / 120
    } else {
        1
    };
    steps * 32
}

/// The scroll offset after a wheel rotation of `delta`: each notch (at least
/// one) scrolls one line, up for a positive rotation; the result is clamped.
pub open spec fn wheel_scroll_spec(offset: int, delta: int, content_height: int, viewport_height: int) -> int {
    let pixels = wheel_pixels_spec(delta);
    let moved = if delta > 0 {
        offset - pixels
    } else {
        offset + pixels
    };
    clamp_scroll_spec(moved, content_height, viewport_height)
}

/// The scroll offset after a wheel rotation; `None` when the rotation is zero
/// (the message is not handled).
pub fn mouse_wheel_scroll_offset(offset: i32, delta: i32, content_height: i32, viewport_height: i32) -> (r: Option<i32>)
    requires
        delta != 0 ==> {
            &&& delta > i32::MIN
            &&& wheel_pixels_spec(delta as int) <= i32::MAX
            &&& delta > 0 ==> i32::MIN <= offset - wheel_pixels_spec(delta as int)
            &&& delta < 0 ==> offset + wheel_pixels_spec(delta as int) <= i32::MAX
            &&& i32::MIN <= nonnegative_height(content_height as int) - viewport_height <= i32::MAX
        },
    ensures
        delta == 0 <==> r is None,
        r matches Some(v) ==> v == wheel_scroll_spec(
            offset as int,
            delta as int,
            nonnegative_height(content_height as int),
            viewport_height as int,
        ),
{
    if delta == 0 {
        return None;
    }
    let content_height = if content_height > 0 {
        content_height
    } else {
        0
    };
    let abs = if delta < 0 {
        -delta
    } else {
        delta
    };
    let q = abs / OPTIONS_WHEEL_DELTA;
    let steps = if q > 1 {
        q
    } else {
        1
    };
    let pixels = steps * OPTIONS_SCROLL_LINE;
    let moved = if delta > 0 {
        offset - pixels
    } else {
        offset + pixels
    };
    Some(clamp_scroll_offset(moved, content_height, viewport_height))
}

/// The scroll offset after a scroll-bar command (`SB_LINEUP` 0 to
/// `SB_BOTTOM` 7): lines and pages move up or down, the thumb commands go to
/// `thumb_position`, top and bottom go to the ends; other commands keep the
/// offset. The result is clamped; with nothing to scroll it is 0.
pub open spec fn vscroll_spec(offset: int, command: u32, thumb_position: int, content_height: int, viewport_height: int) -> int {
    let max = max_scroll_spec(content_height, viewport_height);
    if max <= 0 {
        0
    } else {
        let page = if viewport_height - 36 > 32 {
            viewport_height - 36
        } else {
            32
        };
        let moved = if command == 0 {
            offset - 32
        } else if command == 1 {
            offset + 32
        } else if command == 2 {
            offset - page
        } else if command == 3 {
            offset + page
        } else if command == 6 {
            0
        } else if command == 7 {
            max
        } else if command == 4 || command == 5 {
            thumb_position
        } else {
            offset
        };
        if moved < 0 {
            0
        } else if moved > max {
            max
        } else {
            moved
        }
    }
}

/// A content height with a negative one counted as 0.
pub open spec fn nonnegative_height(content_height: int) -> int {
    if content_height > 0 {
        content_height
    } else {
        0
    }
}

/// The moves of a scroll-bar command fit in an `i32`: the content's overflow
/// of the viewport and, when there is something to scroll, the page size and
/// the line or page moved from `offset`.
pub open spec fn vscroll_fits(offset: int, command: u32, content_height: int, viewport_height: int) -> bool {
    let content = nonnegative_height(content_height);
    &&& i32::MIN <= content - viewport_height <= i32::MAX
    &&& max_scroll_spec(content, viewport_height) > 0 ==> {
        let page = if viewport_height - 36 > 32 {
            viewport_height - 36
        } else {
            32
        };
        &&& i32::MIN <= viewport_height - 36
        &&& command == 0 ==> i32::MIN <= offset - 32
        &&& command == 1 ==> offset + 32 <= i32::MAX
        &&& command == 2 ==> i32::MIN <= offset - page
        &&& command == 3 ==> offset + page <= i32::MAX
    }
}

/// The scroll offset after a scroll-bar command, for a tab whose content is
/// `content_height` high (a negative height counts as 0).
pub fn vscroll_offset(offset: i32, command: u32, thumb_position: i32, content_height: i32, viewport_height: i32) -> (r: i32)
    requires
        vscroll_fits(offset as int, command, content_height as int, viewport_height as int),
    ensures
        r == vscroll_spec(
            offset as int,
            command,
            thumb_position as int,
            nonnegative_height(content_height as int),
            viewport_height as int,
        ),
{
    let content_height = if content_height > 0 {
        content_height
    } else {
        0
    };
    let diff = content_height - viewport_height;
    let max_offset = if diff > 0 {
        diff
    } else {
        0
    };
    if max_offset <= 0 {
        return 0;
    }
    let page_step = if viewport_height - OPTIONS_ROW_HEIGHT > OPTIONS_SCROLL_LINE {
        viewport_height - OPTIONS_ROW_HEIGHT
    } else {
        OPTIONS_SCROLL_LINE
    };
    let moved = if command == 0 {
        offset - OPTIONS_SCROLL_LINE
    } else if command == 1 {
        offset + OPTIONS_SCROLL_LINE
    } else if command == 2 {
        offset - page_step
    } else if command == 3 {
        offset + page_step
    } else if command == 6 {
        0
    } else if command == 7 {
        max_offset
    } else if command == 4 || command == 5 {
        thumb_position
    } else {
        offset
    };
    if moved < 0 {
        0
    } else if moved > max_offset {
        max_offset
    } else {
        moved
    }
}

/// What each scroll-bar command does when the content overflows the
/// viewport by `m = content - viewport > 0`: a line is 32 pixels; a page is
/// the viewport's height less one 36-pixel row, but at least a line; the
/// thumb commands go to the thumb; top and bottom go to 0 and `m`; any other
/// command stays; every result is then kept within `0..=m`. With nothing to
/// scroll every command gives 0.
pub proof fn lemma_scroll_commands(offset: int, thumb: int, content: int, viewport: int, command: u32)
    ensures
        content - viewport <= 0 ==> vscroll_spec(offset, command, thumb, content, viewport) == 0,
        content - viewport > 0 ==> ({
            let m = content - viewport;
            let fit = |x: int| if x < 0 {
                0
            } else if x > m {
                m
            } else {
                x
            };
            let page = if viewport >= 68 {
                viewport - 36
            } else {
                32
            };
            &&& vscroll_spec(offset, 0, thumb, content, viewport) == fit(offset - 32)
            &&& vscroll_spec(offset, 1, thumb, content, viewport) == fit(offset + 32)
            &&& vscroll_spec(offset, 2, thumb, content, viewport) == fit(offset - page)
            &&& vscroll_spec(offset, 3, thumb, content, viewport) == fit(offset + page)
            &&& vscroll_spec(offset, 4, thumb, content, viewport) == fit(thumb)
            &&& vscroll_spec(offset, 5, thumb, content, viewport) == fit(thumb)
            &&& vscroll_spec(offset, 6, thumb, content, viewport) == 0
            &&& vscroll_spec(offset, 7, thumb, content, viewport) == m
            &&& command > 7 ==> vscroll_spec(offset, command, thumb, content, viewport) == fit(offset)
        }),
{
}

/// A page down followed by a page up comes back to where it started, when
/// neither page reaches past an end of the scroll range.
pub proof fn lemma_page_down_up(offset: int, thumb: int, content: int, viewport: int)
    requires
        content - viewport > 0,
        0 <= offset,
        offset + (if viewport >= 68 {
            viewport - 36
        } else {
            32
        }) <= content - viewport,
    ensures
        vscroll_spec(vscroll_spec(offset, 3, thumb, content, viewport), 2, thumb, content, viewport) == offset,
{
}

/// What a wheel rotation of `delta` does: it moves 32 pixels per notch of
/// 120, at least one notch, up for a positive rotation and down for a
/// negative one, kept within `0..=max(content - viewport, 0)`.
pub proof fn lemma_wheel_moves(offset: int, delta: int, content: int, viewport: int)
    requires
        delta != 0,
    ensures
        ({
            let m = if content - viewport > 0 {
                content - viewport
            } else {
                0
            };
            let size = if delta < 0 {
                -delta
            } else {
                delta
            };
            let notches = if size / 120 > 1 {
                size / 120
            } else {
                1
            };
            let moved = if delta > 0 {
                offset - 32 * notches
            } else {
                offset + 32 * notches
            };
            wheel_scroll_spec(offset, delta, content, viewport) == if moved < 0 {
                0
            } else if moved > m {
                m
            } else {
                moved
            }
        }),
{
}

/// Scrolling always ends inside the scroll range.
pub proof fn lemma_vscroll_in_range(offset: int, command: u32, thumb: int, content_height: int, viewport_height: int)
    ensures
        0 <= vscroll_spec(offset, command, thumb, content_height, viewport_height) <= max_scroll_spec(
            content_height,
            viewport_height,
        ),
        0 <= wheel_scroll_spec(offset, thumb, content_height, viewport_height) <= max_scroll_spec(
            content_height,
            viewport_height,
        ),
{
}

} // verus!
