use allui::grid::{
    adaptive_copies, cell_item, expand_tracks, filler_cells, line_count, max_columns,
};
use allui::list::{cascade, row_has_separator};
use allui::{
    Alignment, EdgeSet, EmptyView, FlexAlign, FlexDirection, GridLine, HorizontalAlignment,
    ListStyle, ScrollAxes, ScrollLayout, ScrollOverflow, SpacerAxis, VerticalAlignment,
};

#[test]
fn alignment_presets() {
    let a = Alignment::bottom_trailing();
    assert_eq!(a.horizontal, HorizontalAlignment::Trailing);
    assert_eq!(a.vertical, VerticalAlignment::Bottom);
    let a = Alignment::top_leading();
    assert_eq!(a.horizontal, HorizontalAlignment::Leading);
    assert_eq!(a.vertical, VerticalAlignment::Top);
    assert_eq!(Alignment::default(), Alignment::center());
    assert_eq!(Alignment::top().horizontal, HorizontalAlignment::Center);
    assert_eq!(Alignment::leading().vertical, VerticalAlignment::Center);
    assert_eq!(Alignment::trailing().horizontal, HorizontalAlignment::Trailing);
    assert_eq!(Alignment::bottom().vertical, VerticalAlignment::Bottom);
    assert_eq!(Alignment::bottom_leading().horizontal, HorizontalAlignment::Leading);
    assert_eq!(Alignment::top_trailing().vertical, VerticalAlignment::Top);
}

#[test]
fn alignment_flex_positions() {
    assert_eq!(HorizontalAlignment::Leading.flex_align(), FlexAlign::Start);
    assert_eq!(HorizontalAlignment::Trailing.flex_align(), FlexAlign::End);
    assert_eq!(VerticalAlignment::Center.flex_align(), FlexAlign::Center);
    assert_eq!(VerticalAlignment::FirstTextBaseline.flex_align(), FlexAlign::Baseline);
    assert_eq!(VerticalAlignment::LastTextBaseline.flex_align(), FlexAlign::Baseline);
    assert_eq!(HorizontalAlignment::default(), HorizontalAlignment::Center);
    assert_eq!(VerticalAlignment::default(), VerticalAlignment::Center);
}

#[test]
fn section_spacing_by_style() {
    assert_eq!(ListStyle::grouped().default_section_spacing(), 24);
    assert_eq!(ListStyle::inset_grouped().default_section_spacing(), 24);
    assert_eq!(ListStyle::plain().default_section_spacing(), 16);
    assert_eq!(ListStyle::automatic().default_section_spacing(), 16);
    assert_eq!(ListStyle::sidebar().default_section_spacing(), 12);
    assert_eq!(ListStyle::grouped().compact_section_spacing(), 8);
    assert_eq!(ListStyle::sidebar().compact_section_spacing(), 4);
    assert_eq!(ListStyle::default(), ListStyle::Automatic);
}

#[test]
fn list_padding_by_style() {
    assert_eq!(ListStyle::Plain.content_padding(), 0);
    assert_eq!(ListStyle::InsetGrouped.content_padding(), 16);
    assert_eq!(ListStyle::Sidebar.content_padding(), 8);
}

#[test]
fn settings_cascade() {
    assert_eq!(cascade(Some(3), Some(2), 1), 3);
    assert_eq!(cascade(None, Some(2), 1), 2);
    assert_eq!(cascade::<i32>(None, None, 1), 1);
}

#[test]
fn separators_between_unspaced_rows() {
    assert!(row_has_separator(0, 3, false));
    assert!(row_has_separator(1, 3, false));
    assert!(!row_has_separator(2, 3, false));
    assert!(!row_has_separator(0, 3, true));
    assert!(!row_has_separator(0, 1, false));
}

#[test]
fn edge_sets() {
    let h = EdgeSet::horizontal();
    assert!(h.leading && h.trailing && !h.top && !h.bottom);
    let v = EdgeSet::vertical();
    assert!(v.top && v.bottom && !v.leading && !v.trailing);
    let a = EdgeSet::all();
    assert!(a.top && a.leading && a.bottom && a.trailing);
    assert_eq!(EdgeSet::top(), EdgeSet { top: true, leading: false, bottom: false, trailing: false });
    assert!(EdgeSet::bottom().bottom && EdgeSet::leading().leading && EdgeSet::trailing().trailing);
    assert_eq!(EdgeSet::default(), EdgeSet { top: false, leading: false, bottom: false, trailing: false });
}

#[test]
fn scroll_layouts() {
    assert_eq!(ScrollAxes::default(), ScrollAxes::vertical());
    assert_eq!(
        ScrollAxes::vertical().layout(true),
        ScrollLayout { direction: FlexDirection::Column, overflow: ScrollOverflow::VerticalWithBar }
    );
    assert_eq!(
        ScrollAxes::horizontal().layout(false),
        ScrollLayout { direction: FlexDirection::Row, overflow: ScrollOverflow::Horizontal }
    );
    assert_eq!(ScrollAxes::both().layout(false), ScrollAxes::both().layout(true));
    assert_eq!(ScrollAxes::both().layout(true).overflow, ScrollOverflow::Both);
}

#[test]
fn spacer_axes() {
    assert_eq!(SpacerAxis::default(), SpacerAxis::Both);
    assert!(SpacerAxis::Both.constrains_width() && SpacerAxis::Both.constrains_height());
    assert!(SpacerAxis::Horizontal.constrains_width() && !SpacerAxis::Horizontal.constrains_height());
    assert!(!SpacerAxis::Vertical.constrains_width() && SpacerAxis::Vertical.constrains_height());
}

#[test]
fn empty_view() {
    assert_eq!(EmptyView::new(), EmptyView::default());
}

#[test]
fn grid_columns_are_widest_row() {
    let lines = vec![GridLine::Row(2), GridLine::Spanning, GridLine::Row(4), GridLine::Row(1)];
    assert_eq!(max_columns(&lines), 4);
    assert_eq!(max_columns(&vec![GridLine::Spanning]), 0);
    assert_eq!(max_columns(&vec![]), 0);
}

#[test]
fn short_rows_are_padded() {
    assert_eq!(filler_cells(1, 4), 3);
    assert_eq!(filler_cells(4, 4), 0);
    assert_eq!(filler_cells(0, 4), 0);
}

#[test]
fn lines_round_up() {
    assert_eq!(line_count(10, 3), 4);
    assert_eq!(line_count(9, 3), 3);
    assert_eq!(line_count(0, 3), 0);
    assert_eq!(line_count(5, 0), 0);
    assert_eq!(line_count(usize::MAX, 2), usize::MAX / 2 + 1);
}

#[test]
fn cells_map_to_items() {
    assert_eq!(cell_item(2, 1, 3, 10), Some(7));
    assert_eq!(cell_item(3, 0, 3, 10), Some(9));
    assert_eq!(cell_item(3, 1, 3, 10), None);
    assert_eq!(cell_item(usize::MAX, 2, 2, usize::MAX), None);
}

#[test]
fn adaptive_tracks_expand() {
    assert_eq!(adaptive_copies(0), 1);
    assert_eq!(adaptive_copies(5), 5);
    assert_eq!(expand_tracks(&vec![false, true, false], 3), vec![0, 1, 1, 1, 2]);
    assert_eq!(expand_tracks(&vec![true], 0), vec![0]);
    assert_eq!(expand_tracks(&vec![false, false], 7), vec![0, 1]);
    assert_eq!(expand_tracks(&vec![], 4), Vec::<usize>::new());
}

#[test]
fn every_item_has_a_cell() {
    for tracks in 1..5usize {
        for items in 0..12usize {
            let lines = line_count(items, tracks);
            let mut seen = vec![false; items];
            for line in 0..lines {
                for track in 0..tracks {
                    if let Some(i) = cell_item(line, track, tracks, items) {
                        assert!(!seen[i]);
                        seen[i] = true;
                    }
                }
            }
            assert!(seen.iter().all(|s| *s));
        }
    }
}
