use gpui_component::table::{
    Column, ColumnFixed, ColumnSort, RowDecoration, TableEvent, TableState,
};

fn col(sort: Option<ColumnSort>) -> Column {
    Column {
        fixed: None,
        selectable: true,
        resizable: true,
        sort,
    }
}

#[test]
fn table_select_next_and_prev_loop() {
    let mut t = TableState::new(vec![col(None)], 3);
    assert_eq!(t.action_select_next(), Some(TableEvent::SelectRow(0)));
    assert_eq!(t.action_select_next(), Some(TableEvent::SelectRow(1)));
    assert_eq!(t.action_select_next(), Some(TableEvent::SelectRow(2)));
    // past the last row the selection loops to the first
    assert_eq!(t.action_select_next(), Some(TableEvent::SelectRow(0)));
    // before the first row it loops to the last
    assert_eq!(t.action_select_prev(), Some(TableEvent::SelectRow(2)));
    assert_eq!(t.selected_row(), Some(2));
}

#[test]
fn table_select_without_loop_stops_at_ends() {
    let mut t = TableState::new(vec![col(None)], 2).loop_selection(false);
    t.set_selected_row(1);
    assert_eq!(t.action_select_next(), Some(TableEvent::SelectRow(1)));
    t.set_selected_row(0);
    assert_eq!(t.action_select_prev(), Some(TableEvent::SelectRow(0)));
}

#[test]
fn table_empty_does_not_select() {
    let mut t = TableState::new(vec![], 0);
    assert_eq!(t.action_select_next(), None);
    assert_eq!(t.action_select_prev(), None);
    assert_eq!(t.selected_row(), None);
}

#[test]
fn table_sort_cycles() {
    let mut t = TableState::new(vec![col(Some(ColumnSort::Default)), col(Some(ColumnSort::Ascending)), col(None)], 0);
    assert_eq!(t.perform_sort(0), Some(ColumnSort::Descending));
    assert_eq!(t.perform_sort(0), Some(ColumnSort::Ascending));
    assert_eq!(t.perform_sort(0), Some(ColumnSort::Default));
    // a column without a sort is not sorted
    assert_eq!(t.perform_sort(2), None);
    assert_eq!(t.perform_sort(9), None);
    assert_eq!(t.perform_sort(1), Some(ColumnSort::Descending));
    let mut t = t.sortable(false);
    assert_eq!(t.perform_sort(0), None);
}

#[test]
fn table_move_column_back() {
    let mut t = TableState::new(vec![col(None), col(Some(ColumnSort::Default)), col(None)], 0);
    assert_eq!(t.move_column(0, 2), Some(TableEvent::MoveColumn(0, 2)));
    assert_eq!(t.perform_sort(0), Some(ColumnSort::Descending));
    assert_eq!(t.perform_sort(2), None);
    assert_eq!(t.move_column(2, 0), Some(TableEvent::MoveColumn(2, 0)));
    assert_eq!(t.move_column(1, 1), None);
    assert_eq!(t.perform_sort(0), None);
    assert_eq!(t.perform_sort(1), Some(ColumnSort::Ascending));
}

#[test]
fn table_click_and_cancel() {
    let mut t = TableState::new(vec![col(None), col(None)], 5);
    assert_eq!(t.on_row_click(false, 2, 3), vec![TableEvent::SelectRow(3), TableEvent::DoubleClickedRow(3)]);
    assert_eq!(t.on_row_click(true, 1, 4), vec![]);
    assert_eq!(t.selected_row(), Some(3));
    assert_eq!(t.on_col_head_click(1), Some((TableEvent::SelectColumn(1), 1)));
    assert_eq!(t.on_col_head_click(7), None);
    assert!(t.action_cancel());
    assert!(!t.has_selection());
    assert!(!t.action_cancel());
}

#[test]
fn table_fixed_columns_scroll() {
    let fixed = Column {
        fixed: Some(ColumnFixed::Left),
        ..col(None)
    };
    let mut t = TableState::new(vec![fixed, fixed, col(None), col(None)], 1);
    assert_eq!(t.fixed_left_cols_count(), 2);
    assert_eq!(t.scroll_to_col(3), 1);
    assert_eq!(t.scroll_to_col(1), 0);
    assert_eq!(t.set_selected_col(3), (TableEvent::SelectColumn(3), 1));
    assert_eq!(t.action_select_next_col(), (TableEvent::SelectColumn(0), 0));
    assert_eq!(t.action_select_prev_col(), (TableEvent::SelectColumn(3), 1));
}

#[test]
fn table_load_more_and_visible_range() {
    let mut t = TableState::new(vec![col(None)], 100);
    assert!(t.load_more_if_need(100, 80));
    assert!(!t.load_more_if_need(100, 79));
    assert!(t.load_more_if_need(5, 0));
    assert!(t.update_visible_range_if_need(0..10, true));
    assert!(!t.update_visible_range_if_need(0..10, true));
    assert!(!t.update_visible_range_if_need(3..4, false));
    assert_eq!(t.visible_range().rows(), 0..10);
    assert_eq!(t.visible_range().cols(), 0..0);
    assert_eq!(t.rows_count(), 100);
    t.set_rows_count(7);
    assert_eq!(t.rows_count(), 7);
    assert_eq!(t.columns_count(), 1);
}

#[test]
fn visible_ranges_keep_the_last_wide_update_of_each_axis() {
    let mut t = TableState::new(vec![col(None), col(None)], 50);
    assert!(t.update_visible_range_if_need(0..10, true));
    assert!(t.update_visible_range_if_need(2..5, false));
    assert!(!t.update_visible_range_if_need(3..4, true));
    assert!(t.update_visible_range_if_need(1..3, false));
    assert!(!t.update_visible_range_if_need(7..7, false));
    assert_eq!(t.visible_range().rows(), 0..10);
    assert_eq!(t.visible_range().cols(), 1..3);
    // Reading the ranges changes nothing.
    assert_eq!(t.visible_range().rows(), 0..10);
    assert_eq!(t.visible_range().cols(), 1..3);
}

fn deco(striped: bool, bottom_border: bool, hover: bool, selected: bool, right_clicked: bool) -> RowDecoration {
    RowDecoration {
        striped,
        bottom_border,
        top_border: false,
        hover,
        selected,
        right_clicked,
    }
}

#[test]
fn row_decorations() {
    let mut t = TableState::new(vec![col(None)], 4);
    // A plain row in the middle, striped on odd rows.
    assert_eq!(t.row_decoration(1, 4, 0, true), deco(true, true, true, false, false));
    assert_eq!(t.row_decoration(2, 4, 0, true), deco(false, true, true, false, false));
    // The last row of a filled table has no border below.
    assert_eq!(t.row_decoration(3, 4, 0, false), deco(false, false, true, false, false));
    // With empty rows after it, it has one unless the table is striped.
    assert_eq!(t.row_decoration(3, 4, 2, false), deco(false, true, true, false, false));
    assert_eq!(t.row_decoration(3, 4, 2, true), deco(true, false, true, false, false));
    // Selected, it always has one, and no hover.
    t.set_selected_row(3);
    assert_eq!(t.row_decoration(3, 4, 0, true), deco(true, true, false, true, false));
    // A row marked by a right click.
    t.on_row_click(true, 1, 1);
    assert_eq!(t.row_decoration(1, 4, 0, false), deco(false, true, false, false, true));
    // An empty filler row.
    assert_eq!(
        t.row_decoration(5, 4, 2, true),
        RowDecoration {
            striped: true,
            bottom_border: false,
            top_border: true,
            hover: false,
            selected: false,
            right_clicked: false,
        }
    );
}
