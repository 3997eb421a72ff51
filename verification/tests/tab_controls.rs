use sonarpad_options::layout::{options_scrollbar, ControlRect, ScrollbarState};
use sonarpad_options::model::Language;
use sonarpad_options::tab_layout::{layout_rows, relayout_tab, tab_layout, tab_rows, LayoutRow};
use sonarpad_options::visibility::{
    split_controls, split_tab_order, tab_first_control, SplitTabControl, TabFirstControl,
};

#[test]
fn scrollbar_for_overflowing_content() {
    assert_eq!(
        options_scrollbar(900, 400, 120),
        ScrollbarState { max: 500, page: 400, position: 120, visible: true }
    );
}

#[test]
fn scrollbar_clamps_position() {
    assert_eq!(
        options_scrollbar(900, 400, 800),
        ScrollbarState { max: 500, page: 400, position: 500, visible: true }
    );
    assert_eq!(options_scrollbar(900, 400, -5).position, 0);
}

#[test]
fn scrollbar_hidden_when_content_fits() {
    assert_eq!(
        options_scrollbar(300, 400, 50),
        ScrollbarState { max: 0, page: 400, position: 0, visible: false }
    );
    assert_eq!(
        options_scrollbar(-20, 0, 0),
        ScrollbarState { max: 0, page: 1, position: 0, visible: false }
    );
}

#[test]
fn split_order_by_text() {
    assert_eq!(
        split_tab_order(split_controls(2)),
        vec![
            SplitTabControl::TextLabel,
            SplitTabControl::TextEdit,
            SplitTabControl::RequiresNewline,
            SplitTabControl::PartNamingLabel,
            SplitTabControl::PartNamingList,
            SplitTabControl::PartAnnouncementLabel,
            SplitTabControl::PartAnnouncementList,
        ]
    );
}

#[test]
fn split_order_by_time_and_parts() {
    let by_time = split_tab_order(split_controls(1));
    assert_eq!(by_time.len(), 8);
    assert_eq!(by_time[0], SplitTabControl::MinutesLabel);
    assert_eq!(by_time[3], SplitTabControl::StartNumberList);
    let parts = split_tab_order(split_controls(3));
    assert_eq!(
        parts,
        vec![
            SplitTabControl::PartsCountLabel,
            SplitTabControl::PartsCountEdit,
            SplitTabControl::PartNamingLabel,
            SplitTabControl::PartNamingList,
            SplitTabControl::PartAnnouncementLabel,
            SplitTabControl::PartAnnouncementList,
        ]
    );
}

#[test]
fn split_order_without_split() {
    assert_eq!(
        split_tab_order(split_controls(0)),
        vec![
            SplitTabControl::PartNamingLabel,
            SplitTabControl::PartNamingList,
            SplitTabControl::PartAnnouncementLabel,
            SplitTabControl::PartAnnouncementList,
        ]
    );
}

#[test]
fn first_control_of_each_tab() {
    assert_eq!(tab_first_control(0), Some(TabFirstControl::LanguageList));
    assert_eq!(tab_first_control(1), Some(TabFirstControl::EngineList));
    assert_eq!(tab_first_control(2), Some(TabFirstControl::WordWrapBox));
    assert_eq!(tab_first_control(3), Some(TabFirstControl::SkipList));
    assert_eq!(tab_first_control(4), Some(TabFirstControl::RssDeleteConfirmList));
    assert_eq!(tab_first_control(5), Some(TabFirstControl::WhisperModelList));
    assert_eq!(tab_first_control(6), Some(TabFirstControl::ShortcutActionList));
    assert_eq!(tab_first_control(7), None);
    assert_eq!(tab_first_control(-1), None);
}

fn rect(x: i32, y: i32, width: i32, height: i32) -> ControlRect {
    ControlRect { x, y, width, height }
}

#[test]
fn general_tab_layout_unscrolled() {
    let (rects, height) = tab_layout(0, split_controls(0), Language::English, 0);
    assert_eq!(height, 634);
    assert_eq!(rects[0], rect(24, 58, 285, 20));
    assert_eq!(rects[1], rect(327, 56, 430, 30));
    assert_eq!(rects[6], rect(327, 166, 430, 24));
}

#[test]
fn scrolling_moves_controls_and_keeps_height() {
    let (top, h0) = tab_layout(1, split_controls(0), Language::English, 0);
    let (scrolled, h1) = tab_layout(1, split_controls(0), Language::English, 100);
    assert_eq!(h0, 1348);
    assert_eq!(h1, 1348);
    assert_eq!(top.len(), scrolled.len());
    for (a, b) in top.iter().zip(scrolled.iter()) {
        assert_eq!(a.x, b.x);
        assert_eq!(a.width, b.width);
        assert_eq!(a.height, b.height);
        assert_eq!(a.y - b.y, 100);
    }
}

#[test]
fn voice_tab_profile_buttons_side_by_side() {
    let (rects, _) = tab_layout(1, split_controls(0), Language::English, 0);
    assert_eq!(rects[2], rect(327, 94, 430, 30));
    assert_eq!(rects[3], rect(327, 124, 210, 30));
    assert_eq!(rects[4], rect(547, 124, 210, 30));
    assert_eq!(rects[5], rect(24, 160, 285, 20));
}

#[test]
fn tab_heights() {
    let en = Language::English;
    assert_eq!(tab_layout(2, split_controls(0), en, 0).1, 712);
    assert_eq!(tab_layout(4, split_controls(0), en, 0).1, 616);
    assert_eq!(tab_layout(4, split_controls(0), Language::Italian, 0).1, 652);
    assert_eq!(tab_layout(5, split_controls(0), en, 0).1, 418);
    assert_eq!(tab_layout(6, split_controls(0), en, 0).1, 202);
    assert_eq!(tab_layout(3, split_controls(0), en, 0).1, 508);
    assert_eq!(tab_layout(3, split_controls(2), Language::Italian, 0).1, 616);
    assert_eq!(tab_layout(3, split_controls(1), en, 0).1, 580);
    assert_eq!(tab_layout(9, split_controls(0), en, 0), (Vec::new(), 58));
}

#[test]
fn shortcuts_tab_buttons() {
    let (rects, _) = tab_layout(6, split_controls(0), Language::English, 0);
    assert_eq!(rects.len(), 7);
    assert_eq!(rects[4], rect(327, 130, 211, 30));
    assert_eq!(rects[5], rect(546, 130, 211, 30));
    assert_eq!(rects[6], rect(327, 166, 430, 30));
}

#[test]
fn audio_tab_browse_over_folder_field() {
    let rows = tab_rows(3, split_controls(0), Language::English);
    assert_eq!(rows[3], LayoutRow::OverPrevious { dx: 0, width: 352, height: 26 });
    let (rects, _) = tab_layout(3, split_controls(0), Language::English, 0);
    assert_eq!(rects[4], rect(24, 130, 285, 20));
    assert_eq!(rects[5], rect(327, 128, 430, 26));
    assert_eq!(rects[6], rect(327, 128, 352, 26));
    assert_eq!(rects[7], rect(685, 128, 72, 30));
}

#[test]
fn rows_with_gap() {
    let rows = [LayoutRow::Checkbox, LayoutRow::Gap(18), LayoutRow::CompactButton];
    let (rects, height) = layout_rows(&rows, 10);
    assert_eq!(rects, vec![rect(327, 48, 430, 24), rect(327, 102, 430, 30)]);
    assert_eq!(height, 58 + 36 + 18 + 30);
}

#[test]
fn relayout_clamps_offset_then_places() {
    let r = relayout_tab(6, split_controls(0), Language::English, 500, 202, 100);
    assert_eq!(r.scroll_offset, 102);
    assert_eq!(r.content_height, 202);
    assert_eq!(r.rects[0], rect(24, 58 - 102, 285, 20));
    let fits = relayout_tab(6, split_controls(0), Language::English, 40, 202, 400);
    assert_eq!(fits.scroll_offset, 0);
    assert_eq!(fits.rects[0], rect(24, 58, 285, 20));
    let negative = relayout_tab(0, split_controls(0), Language::English, -30, -5, 10);
    assert_eq!(negative.scroll_offset, 0);
    assert_eq!(negative.content_height, 634);
}
