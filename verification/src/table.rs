//! The selection, sorting and column-order state of a table, with each user
//! action turned into the new state and the event to emit.

use std::ops::Range;
use vstd::prelude::*;

verus! {

/// Which of rows or columns the current selection is about.
#[derive(Copy, Clone, Debug, PartialEq, Eq, Structural)]
pub enum SelectionState {
    Column,
    Row,
}

/// The side a column is fixed to while the others scroll.
#[derive(Copy, Clone, Debug, PartialEq, Eq, Structural)]
pub enum ColumnFixed {
    Left,
}

/// The sort order of a sortable column.
#[derive(Copy, Clone, Debug, PartialEq, Eq, Structural)]
pub enum ColumnSort {
    Ascending,
    Descending,
    Default,
}

/// What the table state needs to know of a column.
#[derive(Copy, Clone, Debug, PartialEq, Eq, Structural)]
pub struct Column {
    /// Whether (and where) the column is fixed.
    pub fixed: Option<ColumnFixed>,
    /// Whether the column can be selected by a click on its head.
    pub selectable: bool,
    /// Whether the column can be resized.
    pub resizable: bool,
    /// The sort of a sortable column; `None` when it cannot be sorted.
    pub sort: Option<ColumnSort>,
}

/// What the table emits.
#[derive(Copy, Clone, Debug, PartialEq, Eq, Structural)]
pub enum TableEvent {
    /// Single click or move to selected row.
    SelectRow(usize),
    /// Double click on the row.
    DoubleClickedRow(usize),
    SelectColumn(usize),
    MoveColumn(usize, usize),
}

/// The visible range of the rows and columns.
pub struct VisibleRangeState {
    /// The visible range of the rows.
    rows: Range<usize>,
    /// The visible range of the columns.
    cols: Range<usize>,
}

impl Default for VisibleRangeState {
    fn default() -> (s: Self)
        ensures
            s.spec_rows() == (Range { start: 0usize, end: 0usize }),
            s.spec_cols() == (Range { start: 0usize, end: 0usize }),
    {
        VisibleRangeState { rows: 0..0, cols: 0..0 }
    }
}

impl VisibleRangeState {
    pub closed spec fn spec_rows(&self) -> Range<usize> {
        self.rows
    }

    pub closed spec fn spec_cols(&self) -> Range<usize> {
        self.cols
    }

    /// Returns the visible range of the rows.
    pub fn rows(&self) -> (r: Range<usize>)
        ensures
            r == self.spec_rows(),
    {
        self.rows.start..self.rows.end
    }

    /// Returns the visible range of the columns.
    pub fn cols(&self) -> (r: Range<usize>)
        ensures
            r == self.spec_cols(),
    {
        self.cols.start..self.cols.end
    }
}

/// The sort a column takes when its head is clicked: descending, then
/// ascending, then back to the default order.
pub open spec fn next_sort(sort: ColumnSort) -> ColumnSort {
    match sort {
        ColumnSort::Ascending => ColumnSort::Default,
        ColumnSort::Descending => ColumnSort::Ascending,
        ColumnSort::Default => ColumnSort::Descending,
    }
}

/// The columns after sorting by column `col_ix` with `sort`: that column
/// takes `sort`, every other sortable column goes back to the default.
pub open spec fn columns_sorted_by(columns: Seq<Column>, col_ix: int, sort: ColumnSort) -> Seq<
    Column,
> {
    Seq::new(
        columns.len(),
        |ix: int|
            if ix == col_ix {
                Column { sort: Some(sort), ..columns[ix] }
            } else if columns[ix].sort is Some {
                Column { sort: Some(ColumnSort::Default), ..columns[ix] }
            } else {
                columns[ix]
            },
    )
}

/// The columns after moving column `from` to index `to`.
pub open spec fn columns_moved(columns: Seq<Column>, from: int, to: int) -> Seq<Column> {
    columns.remove(from).insert(to, columns[from])
}

/// The number of columns fixed to the left.
pub open spec fn count_fixed_left(columns: Seq<Column>) -> nat
    decreases columns.len(),
{
    if columns.len() == 0 {
        0
    } else {
        count_fixed_left(columns.drop_last()) + if columns.last().fixed == Some(ColumnFixed::Left) {
            1nat
        } else {
            0nat
        }
    }
}

/// The index among the scrolling columns of column `col_ix`: the fixed
/// columns do not scroll, so they are not counted.
pub open spec fn scroll_col_index(col_fixed: bool, columns: Seq<Column>, col_ix: usize) -> int {
    if col_fixed && col_ix >= count_fixed_left(columns) {
        col_ix - count_fixed_left(columns)
    } else if col_fixed {
        0
    } else {
        col_ix as int
    }
}

/// The row selected by moving down from `selected` in a table of `rows`
/// rows: the next row, or the first when looping past the last.
pub open spec fn row_after(selected: Option<usize>, rows: nat, looping: bool) -> nat {
    match selected {
        Some(r) => if r + 1 < rows {
            (r + 1) as nat
        } else if looping {
            0
        } else {
            r as nat
        },
        None => 0,
    }
}

/// The index selected by moving back from `selected` among `count` items:
/// the previous one, or the last when looping past the first. No selection
/// counts as the first item.
pub open spec fn index_before(selected: Option<usize>, count: nat, looping: bool) -> nat {
    let r: nat = match selected {
        Some(r) => r as nat,
        None => 0,
    };
    if r > 0 {
        (r - 1) as nat
    } else if looping && count > 0 {
        (count - 1) as nat
    } else {
        r
    }
}

/// The column selected by moving right from `selected` among `count`
/// columns: the next one, or the first when looping past the last. No
/// selection counts as the first column.
pub open spec fn col_after(selected: Option<usize>, count: nat, looping: bool) -> nat {
    let c: nat = match selected {
        Some(c) => c as nat,
        None => 0,
    };
    if c + 1 < count {
        c + 1
    } else if looping {
        0
    } else {
        c
    }
}

/// How a row is drawn: with the stripe background, a border below or above
/// it, a background on hover, the frame of the selected row, the frame of
/// the row marked by a right click.
#[derive(Copy, Clone, Debug, PartialEq, Eq, Structural)]
pub struct RowDecoration {
    pub striped: bool,
    pub bottom_border: bool,
    pub top_border: bool,
    pub hover: bool,
    pub selected: bool,
    pub right_clicked: bool,
}

/// How row `row_ix` is drawn. With `stripe`, odd rows are striped. A row of
/// data has a border below, except the last one, which has it only when it
/// is selected, or when empty rows follow and the table is not striped; it
/// is highlighted on hover unless selected or marked by a right click; it is
/// framed as selected when it is the selected row and rows are what is
/// selected. An empty filler row has a border above and nothing else.
pub open spec fn row_decoration_of(
    m: TableModel,
    row_ix: usize,
    rows_count: usize,
    extra_rows_count: usize,
    stripe: bool,
) -> RowDecoration {
    let striped = stripe && row_ix % 2 == 1;
    if row_ix < rows_count {
        let is_selected = m.selected_row == Some(row_ix);
        let right_clicked = m.right_clicked_row == Some(row_ix);
        RowDecoration {
            striped,
            bottom_border: row_ix + 1 < rows_count || is_selected || (extra_rows_count > 0 && !stripe),
            top_border: false,
            hover: !is_selected && !right_clicked,
            selected: is_selected && m.selection_state == SelectionState::Row,
            right_clicked,
        }
    } else {
        RowDecoration {
            striped,
            bottom_border: false,
            top_border: true,
            hover: false,
            selected: false,
            right_clicked: false,
        }
    }
}

/// What a table state holds, as plain values.
pub struct TableModel {
    pub columns: Seq<Column>,
    pub rows_count: usize,
    pub selected_row: Option<usize>,
    pub selection_state: SelectionState,
    pub right_clicked_row: Option<usize>,
    pub selected_col: Option<usize>,
    pub loop_selection: bool,
    pub col_selectable: bool,
    pub row_selectable: bool,
    pub sortable: bool,
    pub col_resizable: bool,
    pub col_movable: bool,
    pub col_fixed: bool,
    pub load_more_threshold: usize,
    pub visible_rows: Range<usize>,
    pub visible_cols: Range<usize>,
}

impl TableModel {
    /// Row `row` selected: rows are what is selected, and no row is marked
    /// by a right click any more.
    pub open spec fn select_row(self, row: usize) -> TableModel {
        TableModel {
            selected_row: Some(row),
            selection_state: SelectionState::Row,
            right_clicked_row: None,
            ..self
        }
    }

    /// Column `col` selected: columns are what is selected.
    pub open spec fn select_col(self, col: usize) -> TableModel {
        TableModel { selected_col: Some(col), selection_state: SelectionState::Column, ..self }
    }

    /// Neither a row nor a column selected.
    pub open spec fn cleared(self) -> TableModel {
        TableModel {
            selected_row: None,
            selected_col: None,
            selection_state: SelectionState::Row,
            ..self
        }
    }

    /// The number of columns fixed to the left, none when fixing is off.
    pub open spec fn fixed_left_count(self) -> nat {
        if self.col_fixed {
            count_fixed_left(self.columns)
        } else {
            0
        }
    }

    /// Whether a click on the head of column `col_ix` selects it.
    pub open spec fn col_head_selects(self, col_ix: usize) -> bool {
        &&& self.col_selectable
        &&& col_ix < self.columns.len()
        &&& self.columns[col_ix as int].selectable
    }

    /// Whether sorting by column `col_ix` does anything.
    pub open spec fn sorts_by(self, col_ix: usize) -> bool {
        &&& self.sortable
        &&& col_ix < self.columns.len()
        &&& self.columns[col_ix as int].sort is Some
    }
}

/// The selection, sorting and column-order state of a table.
pub struct TableState {
    columns: Vec<Column>,
    rows_count: usize,
    selected_row: Option<usize>,
    selection_state: SelectionState,
    right_clicked_row: Option<usize>,
    selected_col: Option<usize>,
    /// Whether the table can loop selection, default is true.
    ///
    /// When the prev/next selection is out of the table bounds, the selection will loop to the other side.
    pub loop_selection: bool,
    /// Whether the table can select column.
    pub col_selectable: bool,
    /// Whether the table can select row.
    pub row_selectable: bool,
    /// Whether the table can sort.
    pub sortable: bool,
    /// Whether the table can resize columns.
    pub col_resizable: bool,
    /// Whether the table can move columns.
    pub col_movable: bool,
    /// Enable/disable fixed columns feature.
    pub col_fixed: bool,
    load_more_threshold: usize,
    /// The visible range of the rows and columns.
    visible_range: VisibleRangeState,
}

impl View for TableState {
    type V = TableModel;

    closed spec fn view(&self) -> TableModel {
        TableModel {
            columns: self.columns@,
            rows_count: self.rows_count,
            selected_row: self.selected_row,
            selection_state: self.selection_state,
            right_clicked_row: self.right_clicked_row,
            selected_col: self.selected_col,
            loop_selection: self.loop_selection,
            col_selectable: self.col_selectable,
            row_selectable: self.row_selectable,
            sortable: self.sortable,
            col_resizable: self.col_resizable,
            col_movable: self.col_movable,
            col_fixed: self.col_fixed,
            load_more_threshold: self.load_more_threshold,
            visible_rows: self.visible_range.spec_rows(),
            visible_cols: self.visible_range.spec_cols(),
        }
    }
}

impl TableState {
    pub fn new(columns: Vec<Column>, rows_count: usize) -> (t: Self)
        ensures
            t@ == (TableModel {
                columns: columns@,
                rows_count,
                selected_row: None,
                selection_state: SelectionState::Row,
                right_clicked_row: None,
                selected_col: None,
                loop_selection: true,
                col_selectable: true,
                row_selectable: true,
                sortable: true,
                col_resizable: true,
                col_movable: true,
                col_fixed: true,
                load_more_threshold: 20,
                visible_rows: Range { start: 0usize, end: 0usize },
                visible_cols: Range { start: 0usize, end: 0usize },
            }),
    {
        Self {
            columns,
            rows_count,
            selection_state: SelectionState::Row,
            selected_row: None,
            right_clicked_row: None,
            selected_col: None,
            visible_range: VisibleRangeState::default(),
            loop_selection: true,
            col_selectable: true,
            row_selectable: true,
            sortable: true,
            col_movable: true,
            col_resizable: true,
            col_fixed: true,
            load_more_threshold: 20,
        }
    }

    pub fn set_columns(&mut self, columns: Vec<Column>)
        ensures
            final(self)@ == (TableModel { columns: columns@, ..old(self)@ }),
    {
        self.columns = columns;
    }

    /// Set to loop selection, default to true.
    pub fn loop_selection(self, loop_selection: bool) -> (t: Self)
        ensures
            t@ == (TableModel { loop_selection, ..self@ }),
    {
        let mut this = self;
        this.loop_selection = loop_selection;
        this
    }

    /// Set to enable/disable column movable, default to true.
    pub fn col_movable(self, col_movable: bool) -> (t: Self)
        ensures
            t@ == (TableModel { col_movable, ..self@ }),
    {
        let mut this = self;
        this.col_movable = col_movable;
        this
    }

    /// Set to enable/disable column resizable, default to true.
    pub fn col_resizable(self, col_resizable: bool) -> (t: Self)
        ensures
            t@ == (TableModel { col_resizable, ..self@ }),
    {
        let mut this = self;
        this.col_resizable = col_resizable;
        this
    }

    /// Set to enable/disable column sortable, default true
    pub fn sortable(self, sortable: bool) -> (t: Self)
        ensures
            t@ == (TableModel { sortable, ..self@ }),
    {
        let mut this = self;
        this.sortable = sortable;
        this
    }

    /// Set to enable/disable row selectable, default true
    pub fn row_selectable(self, row_selectable: bool) -> (t: Self)
        ensures
            t@ == (TableModel { row_selectable, ..self@ }),
    {
        let mut this = self;
        this.row_selectable = row_selectable;
        this
    }

    /// Set to enable/disable column selectable, default true
    pub fn col_selectable(self, col_selectable: bool) -> (t: Self)
        ensures
            t@ == (TableModel { col_selectable, ..self@ }),
    {
        let mut this = self;
        this.col_selectable = col_selectable;
        this
    }

    /// Set a threshold value (n rows), of course, when scrolling to the bottom,
    /// the remaining number of rows triggers `load_more`.
    /// This should smaller than the total number of first load rows.
    ///
    /// Default: 20 rows
    pub fn load_more_threshold(self, threshold: usize) -> (t: Self)
        ensures
            t@ == (TableModel { load_more_threshold: threshold, ..self@ }),
    {
        let mut this = self;
        this.load_more_threshold = threshold;
        this
    }

    pub fn set_rows_count(&mut self, rows_count: usize)
        ensures
            final(self)@ == (TableModel { rows_count, ..old(self)@ }),
    {
        self.rows_count = rows_count;
    }

    pub fn rows_count(&self) -> (n: usize)
        ensures
            n == self@.rows_count,
    {
        self.rows_count
    }

    /// The number of columns fixed to the left, none when fixing is off.
    pub fn fixed_left_cols_count(&self) -> (n: usize)
        ensures
            n == self@.fixed_left_count(),
    {
        if !self.col_fixed {
            return 0;
        }
        let mut n: usize = 0;
        let mut i: usize = 0;
        while i < self.columns.len()
            invariant
                0 <= i <= self.columns@.len(),
                n == count_fixed_left(self.columns@.take(i as int)),
                n <= i,
            decreases self.columns@.len() - i,
        {
            proof {
                assert(self.columns@.take(i + 1).drop_last() =~= self.columns@.take(i as int));
            }
            if self.columns[i].fixed == Some(ColumnFixed::Left) {
                n += 1;
            }
            i += 1;
        }
        proof {
            assert(self.columns@.take(i as int) =~= self.columns@);
        }
        n
    }

    /// The index among the scrolling columns to scroll to for column `col_ix`.
    pub fn scroll_to_col(&self, col_ix: usize) -> (ix: usize)
        ensures
            ix == scroll_col_index(self@.col_fixed, self@.columns, col_ix),
    {
        col_ix.saturating_sub(self.fixed_left_cols_count())
    }

    /// Returns the selected row index.
    pub fn selected_row(&self) -> (r: Option<usize>)
        ensures
            r == self@.selected_row,
    {
        self.selected_row
    }

    /// Sets the selected row to the given index; the row is to be scrolled to
    /// and the returned event emitted.
    pub fn set_selected_row(&mut self, row_ix: usize) -> (e: TableEvent)
        ensures
            final(self)@ == old(self)@.select_row(row_ix),
            e == TableEvent::SelectRow(row_ix),
    {
        self.selection_state = SelectionState::Row;
        self.right_clicked_row = None;
        self.selected_row = Some(row_ix);
        TableEvent::SelectRow(row_ix)
    }

    /// Returns the selected column index.
    pub fn selected_col(&self) -> (c: Option<usize>)
        ensures
            c == self@.selected_col,
    {
        self.selected_col
    }

    /// Sets the selected col to the given index; returns the event to emit
    /// and the index to scroll the columns to.
    pub fn set_selected_col(&mut self, col_ix: usize) -> (r: (TableEvent, usize))
        ensures
            final(self)@ == old(self)@.select_col(col_ix),
            r == (TableEvent::SelectColumn(col_ix), scroll_col_index(
                old(self)@.col_fixed,
                old(self)@.columns,
                col_ix,
            ) as usize),
    {
        self.selection_state = SelectionState::Column;
        self.selected_col = Some(col_ix);
        let scroll = self.scroll_to_col(col_ix);
        (TableEvent::SelectColumn(col_ix), scroll)
    }

    /// Clear the selection of the table.
    pub fn clear_selection(&mut self)
        ensures
            final(self)@ == old(self)@.cleared(),
    {
        self.selection_state = SelectionState::Row;
        self.selected_row = None;
        self.selected_col = None;
    }

    /// How row `row_ix` is drawn, given `rows_count` rows of data and
    /// `extra_rows_count` empty rows that fill the rest of the table.
    pub fn row_decoration(&self, row_ix: usize, rows_count: usize, extra_rows_count: usize, stripe: bool) -> (d:
        RowDecoration)
        ensures
            d == row_decoration_of(self@, row_ix, rows_count, extra_rows_count, stripe),
    {
        let striped = stripe && row_ix % 2 != 0;
        if row_ix < rows_count {
            let is_selected = match self.selected_row {
                Some(r) => r == row_ix,
                None => false,
            };
            let right_clicked = match self.right_clicked_row {
                Some(r) => r == row_ix,
                None => false,
            };
            let bottom_border = if row_ix == rows_count - 1 {
                if is_selected {
                    true
                } else if extra_rows_count == 0 {
                    false
                } else {
                    !stripe
                }
            } else {
                true
            };
            let row_selection = match self.selection_state {
                SelectionState::Row => true,
                SelectionState::Column => false,
            };
            RowDecoration {
                striped,
                bottom_border,
                top_border: false,
                hover: !is_selected && !right_clicked,
                selected: is_selected && row_selection,
                right_clicked,
            }
        } else {
            RowDecoration {
                striped,
                bottom_border: false,
                top_border: true,
                hover: false,
                selected: false,
                right_clicked: false,
            }
        }
    }

    /// Returns the visible range of the rows and columns.
    pub fn visible_range(&self) -> (r: &VisibleRangeState)
        ensures
            r.spec_rows() == self@.visible_rows,
            r.spec_cols() == self@.visible_cols,
    {
        &self.visible_range
    }
}

impl TableState {
    /// A mouse press on row `row_ix`: the right button marks the row, any
    /// other selects it, and a double click also reports it.
    pub fn on_row_click(&mut self, right_button: bool, click_count: usize, row_ix: usize) -> (events:
        Vec<TableEvent>)
        ensures
            right_button ==> final(self)@ == (TableModel {
                right_clicked_row: Some(row_ix),
                ..old(self)@
            }) && events@ == Seq::<TableEvent>::empty(),
            !right_button ==> final(self)@ == old(self)@.select_row(row_ix) && events@ == if click_count
                == 2 {
                seq![TableEvent::SelectRow(row_ix), TableEvent::DoubleClickedRow(row_ix)]
            } else {
                seq![TableEvent::SelectRow(row_ix)]
            },
    {
        let mut events = Vec::new();
        if right_button {
            self.right_clicked_row = Some(row_ix);
        } else {
            events.push(self.set_selected_row(row_ix));
            if click_count == 2 {
                events.push(TableEvent::DoubleClickedRow(row_ix));
            }
        }
        events
    }

    /// A click on the head of column `col_ix` selects it when columns and
    /// that column are selectable; returns the event and the scroll index.
    pub fn on_col_head_click(&mut self, col_ix: usize) -> (r: Option<(TableEvent, usize)>)
        ensures
            old(self)@.col_head_selects(col_ix) ==> final(self)@ == old(self)@.select_col(col_ix)
                && r == Some(
                (
                    TableEvent::SelectColumn(col_ix),
                    scroll_col_index(old(self)@.col_fixed, old(self)@.columns, col_ix) as usize,
                ),
            ),
            !old(self)@.col_head_selects(col_ix) ==> final(self)@ == old(self)@ && r is None,
    {
        if !self.col_selectable {
            return None;
        }
        if col_ix >= self.columns.len() {
            return None;
        }
        if !self.columns[col_ix].selectable {
            return None;
        }
        Some(self.set_selected_col(col_ix))
    }

    pub fn has_selection(&self) -> (b: bool)
        ensures
            b == (self@.selected_row is Some || self@.selected_col is Some),
    {
        self.selected_row.is_some() || self.selected_col.is_some()
    }

    /// Escape clears a selection and is handled; without a selection it is
    /// left to the parent (`false`).
    pub fn action_cancel(&mut self) -> (handled: bool)
        ensures
            handled == (old(self)@.selected_row is Some || old(self)@.selected_col is Some),
            handled ==> final(self)@ == old(self)@.cleared(),
            !handled ==> final(self)@ == old(self)@,
    {
        if self.has_selection() {
            self.clear_selection();
            return true;
        }
        false
    }

    pub fn columns_count(&self) -> (n: usize)
        ensures
            n == self@.columns.len(),
    {
        self.columns.len()
    }

    /// Moves the row selection up, looping to the last row when enabled;
    /// nothing happens in an empty table.
    pub fn action_select_prev(&mut self) -> (e: Option<TableEvent>)
        ensures
            old(self)@.rows_count < 1 ==> e is None && final(self)@ == old(self)@,
            old(self)@.rows_count >= 1 ==> {
                let row = index_before(
                    old(self)@.selected_row,
                    old(self)@.rows_count as nat,
                    old(self)@.loop_selection,
                ) as usize;
                &&& e == Some(TableEvent::SelectRow(row))
                &&& final(self)@ == old(self)@.select_row(row)
            },
    {
        let rows_count = self.rows_count;
        if rows_count < 1 {
            return None;
        }
        let mut selected_row = match self.selected_row {
            Some(r) => r,
            None => 0,
        };
        if selected_row > 0 {
            selected_row = selected_row.saturating_sub(1);
        } else {
            if self.loop_selection {
                selected_row = rows_count.saturating_sub(1);
            }
        }
        Some(self.set_selected_row(selected_row))
    }

    /// Moves the row selection down, looping to the first row when enabled;
    /// nothing happens in an empty table.
    pub fn action_select_next(&mut self) -> (e: Option<TableEvent>)
        ensures
            old(self)@.rows_count < 1 ==> e is None && final(self)@ == old(self)@,
            old(self)@.rows_count >= 1 ==> {
                let row = row_after(
                    old(self)@.selected_row,
                    old(self)@.rows_count as nat,
                    old(self)@.loop_selection,
                ) as usize;
                &&& e == Some(TableEvent::SelectRow(row))
                &&& final(self)@ == old(self)@.select_row(row)
            },
    {
        let rows_count = self.rows_count;
        if rows_count < 1 {
            return None;
        }
        let selected_row = match self.selected_row {
            Some(selected_row) => {
                if selected_row < rows_count.saturating_sub(1) {
                    selected_row + 1
                } else if self.loop_selection {
                    0
                } else {
                    selected_row
                }
            },
            None => 0,
        };
        Some(self.set_selected_row(selected_row))
    }

    /// Moves the column selection left, looping to the last column when
    /// enabled; returns the event and the scroll index.
    pub fn action_select_prev_col(&mut self) -> (r: (TableEvent, usize))
        ensures
            ({
                let col = index_before(
                    old(self)@.selected_col,
                    old(self)@.columns.len(),
                    old(self)@.loop_selection,
                ) as usize;
                &&& r == (TableEvent::SelectColumn(col), scroll_col_index(
                    old(self)@.col_fixed,
                    old(self)@.columns,
                    col,
                ) as usize)
                &&& final(self)@ == old(self)@.select_col(col)
            }),
    {
        let mut selected_col = match self.selected_col {
            Some(c) => c,
            None => 0,
        };
        let columns_count = self.columns_count();
        if selected_col > 0 {
            selected_col = selected_col.saturating_sub(1);
        } else {
            if self.loop_selection {
                selected_col = columns_count.saturating_sub(1);
            }
        }
        self.set_selected_col(selected_col)
    }

    /// Moves the column selection right, looping to the first column when
    /// enabled; returns the event and the scroll index.
    pub fn action_select_next_col(&mut self) -> (r: (TableEvent, usize))
        ensures
            ({
                let col = col_after(
                    old(self)@.selected_col,
                    old(self)@.columns.len(),
                    old(self)@.loop_selection,
                ) as usize;
                &&& r == (TableEvent::SelectColumn(col), scroll_col_index(
                    old(self)@.col_fixed,
                    old(self)@.columns,
                    col,
                ) as usize)
                &&& final(self)@ == old(self)@.select_col(col)
            }),
    {
        let mut selected_col = match self.selected_col {
            Some(c) => c,
            None => 0,
        };
        if selected_col < self.columns_count().saturating_sub(1) {
            selected_col += 1;
        } else {
            if self.loop_selection {
                selected_col = 0;
            }
        }
        self.set_selected_col(selected_col)
    }

    /// Sorts by column `col_ix` when the table is sortable and the column has
    /// a sort: the column takes its next sort and the other sortable columns
    /// go back to the default; returns the sort to apply.
    pub fn perform_sort(&mut self, col_ix: usize) -> (sort: Option<ColumnSort>)
        ensures
            old(self)@.sorts_by(col_ix) ==> {
                let s = next_sort(old(self)@.columns[col_ix as int].sort->0);
                &&& sort == Some(s)
                &&& final(self)@ == (TableModel {
                    columns: columns_sorted_by(old(self)@.columns, col_ix as int, s),
                    ..old(self)@
                })
            },
            !old(self)@.sorts_by(col_ix) ==> sort is None && final(self)@ == old(self)@,
    {
        if !self.sortable {
            return None;
        }
        if col_ix >= self.columns.len() {
            return None;
        }
        let sort = match self.columns[col_ix].sort {
            Some(sort) => sort,
            None => {
                return None;
            },
        };
        let sort = match sort {
            ColumnSort::Ascending => ColumnSort::Default,
            ColumnSort::Descending => ColumnSort::Ascending,
            ColumnSort::Default => ColumnSort::Descending,
        };
        let ghost old_columns = self.columns@;
        let ghost before = self@;
        let mut ix: usize = 0;
        while ix < self.columns.len()
            invariant
                self@ == (TableModel { columns: self.columns@, ..before }),
                0 <= ix <= self.columns@.len(),
                self.columns@.len() == old_columns.len(),
                col_ix < old_columns.len(),
                forall|i: int|
                    0 <= i < ix ==> #[trigger] self.columns@[i] == columns_sorted_by(
                        old_columns,
                        col_ix as int,
                        sort,
                    )[i],
                forall|i: int| ix <= i < self.columns@.len() ==> #[trigger] self.columns@[i] == old_columns[i],
            decreases self.columns@.len() - ix,
        {
            let mut col = self.columns[ix];
            if ix == col_ix {
                col.sort = Some(sort);
            } else {
                if col.sort.is_some() {
                    col.sort = Some(ColumnSort::Default);
                }
            }
            self.columns.set(ix, col);
            ix += 1;
        }
        proof {
            assert(self.columns@ =~= columns_sorted_by(old_columns, col_ix as int, sort));
        }
        Some(sort)
    }

    /// Moves column `col_ix` to index `to_ix`; returns the event to emit, or
    /// `None` when the column stays where it is.
    pub fn move_column(&mut self, col_ix: usize, to_ix: usize) -> (e: Option<TableEvent>)
        requires
            col_ix != to_ix ==> col_ix < old(self)@.columns.len() && to_ix < old(self)@.columns.len(),
        ensures
            col_ix == to_ix ==> e is None && final(self)@ == old(self)@,
            col_ix != to_ix ==> e == Some(TableEvent::MoveColumn(col_ix, to_ix)) && final(self)@ == (
            TableModel {
                columns: columns_moved(old(self)@.columns, col_ix as int, to_ix as int),
                ..old(self)@
            }),
    {
        if col_ix == to_ix {
            return None;
        }
        let col = self.columns.remove(col_ix);
        self.columns.insert(to_ix, col);
        Some(TableEvent::MoveColumn(col_ix, to_ix))
    }

    /// Whether to load more rows: the visible end is within the threshold of
    /// the last row.
    pub fn load_more_if_need(&self, rows_count: usize, visible_end: usize) -> (b: bool)
        ensures
            b == (visible_end + self@.load_more_threshold >= rows_count),
    {
        let threshold = self.load_more_threshold;
        visible_end >= rows_count.saturating_sub(threshold)
    }

    /// Records a new visible range of rows (`vertical`) or columns; returns
    /// whether it changed, in which case the caller is notified. A range of
    /// at most one item is ignored.
    pub fn update_visible_range_if_need(&mut self, visible_range: Range<usize>, vertical: bool) -> (changed: bool)
        ensures
            changed == (visible_range.end > visible_range.start + 1 && if vertical {
                old(self)@.visible_rows != visible_range
            } else {
                old(self)@.visible_cols != visible_range
            }),
            changed && vertical ==> final(self)@ == (TableModel {
                visible_rows: visible_range,
                ..old(self)@
            }),
            changed && !vertical ==> final(self)@ == (TableModel {
                visible_cols: visible_range,
                ..old(self)@
            }),
            !changed ==> final(self)@ == old(self)@,
            final(self)@ == with_visible_range(old(self)@, visible_range, vertical),
    {
        if visible_range.end <= visible_range.start || visible_range.end - visible_range.start <= 1 {
            return false;
        }
        if vertical {
            if self.visible_range.rows.start == visible_range.start
                && self.visible_range.rows.end == visible_range.end {
                return false;
            }
            self.visible_range.rows = visible_range;
        } else {
            if self.visible_range.cols.start == visible_range.start
                && self.visible_range.cols.end == visible_range.end {
                return false;
            }
            self.visible_range.cols = visible_range;
        }
        true
    }
}

/// The table after a visible range of rows (`vertical`) or columns is
/// reported: a range of more than one item is recorded, a shorter one is
/// ignored.
pub open spec fn with_visible_range(m: TableModel, r: Range<usize>, vertical: bool) -> TableModel {
    if r.end > r.start + 1 {
        if vertical {
            TableModel { visible_rows: r, ..m }
        } else {
            TableModel { visible_cols: r, ..m }
        }
    } else {
        m
    }
}

/// The table after the visible ranges `updates` are reported in order.
pub open spec fn with_visible_ranges(m: TableModel, updates: Seq<(Range<usize>, bool)>) -> TableModel
    decreases updates.len(),
{
    if updates.len() == 0 {
        m
    } else {
        let last = updates.last();
        with_visible_range(with_visible_ranges(m, updates.drop_last()), last.0, last.1)
    }
}

/// The last range of more than one item among the reports of one axis
/// (`vertical` for rows), or `initial` when there is none.
pub open spec fn last_visible(initial: Range<usize>, updates: Seq<(Range<usize>, bool)>, vertical: bool) -> Range<
    usize,
>
    decreases updates.len(),
{
    if updates.len() == 0 {
        initial
    } else {
        let last = updates.last();
        if last.1 == vertical && last.0.end > last.0.start + 1 {
            last.0
        } else {
            last_visible(initial, updates.drop_last(), vertical)
        }
    }
}

/// After any sequence of reports, the visible rows are the last rows range
/// of more than one item that was reported (or what they were), and the
/// visible columns likewise, each untouched by reports about the other axis;
/// nothing else changes.
pub proof fn lemma_visible_ranges(m: TableModel, updates: Seq<(Range<usize>, bool)>)
    ensures
        with_visible_ranges(m, updates).visible_rows == last_visible(m.visible_rows, updates, true),
        with_visible_ranges(m, updates).visible_cols == last_visible(m.visible_cols, updates, false),
        with_visible_ranges(m, updates) == (TableModel {
            visible_rows: with_visible_ranges(m, updates).visible_rows,
            visible_cols: with_visible_ranges(m, updates).visible_cols,
            ..m
        }),
    decreases updates.len(),
{
    if updates.len() > 0 {
        lemma_visible_ranges(m, updates.drop_last());
    }
}

/// Clicking the head of a sortable column three times brings its sort back
/// to where it was, and leaves the columns as one sort by it would.
pub proof fn lemma_sort_cycles(columns: Seq<Column>, col_ix: int)
    requires
        0 <= col_ix < columns.len(),
        columns[col_ix].sort is Some,
    ensures
        ({
            let s0 = columns[col_ix].sort->0;
            let s1 = next_sort(s0);
            let s2 = next_sort(s1);
            let s3 = next_sort(s2);
            let c1 = columns_sorted_by(columns, col_ix, s1);
            let c2 = columns_sorted_by(c1, col_ix, s2);
            let c3 = columns_sorted_by(c2, col_ix, s3);
            &&& s1 != s0 && s2 != s0 && s1 != s2
            &&& s3 == s0
            &&& c3 == columns_sorted_by(columns, col_ix, s0)
            &&& c3[col_ix].sort == Some(s0)
        }),
{
    let s0 = columns[col_ix].sort->0;
    let s1 = next_sort(s0);
    let s2 = next_sort(s1);
    let s3 = next_sort(s2);
    let c1 = columns_sorted_by(columns, col_ix, s1);
    let c2 = columns_sorted_by(c1, col_ix, s2);
    let c3 = columns_sorted_by(c2, col_ix, s3);
    assert(c3 =~= columns_sorted_by(columns, col_ix, s0));
}

/// Sorting by a column changes nothing but sorts: every column keeps whether
/// it can be sorted, the sorted column takes the new sort, and every other
/// sortable column is back to the default order.
pub proof fn lemma_sort_only_one_column(columns: Seq<Column>, col_ix: int, sort: ColumnSort)
    requires
        0 <= col_ix < columns.len(),
        columns[col_ix].sort is Some,
    ensures
        ({
            let sorted = columns_sorted_by(columns, col_ix, sort);
            &&& sorted.len() == columns.len()
            &&& sorted[col_ix].sort == Some(sort)
            &&& forall|i: int|
                0 <= i < columns.len() ==> {
                    &&& (#[trigger] sorted[i]).sort is Some == columns[i].sort is Some
                    &&& sorted[i].fixed == columns[i].fixed
                    &&& sorted[i].selectable == columns[i].selectable
                    &&& sorted[i].resizable == columns[i].resizable
                    &&& (i != col_ix && columns[i].sort is Some) ==> sorted[i].sort == Some(
                        ColumnSort::Default,
                    )
                }
        }),
{
}

/// Moving a column and then moving it back restores the columns; a move
/// keeps the number of columns and puts the moved column at its target.
pub proof fn lemma_move_column_back(columns: Seq<Column>, from: int, to: int)
    requires
        0 <= from < columns.len(),
        0 <= to < columns.len(),
    ensures
        columns_moved(columns, from, to).len() == columns.len(),
        columns_moved(columns, from, to)[to] == columns[from],
        columns_moved(columns_moved(columns, from, to), to, from) == columns,
{
    let moved = columns_moved(columns, from, to);
    assert(moved[to] == columns[from]);
    assert(columns_moved(moved, to, from) =~= columns);
}

/// With looping on, moving the selection down then up, or up then down,
/// comes back to the row it started from; without looping the same holds
/// away from the ends.
pub proof fn lemma_select_next_prev(row: usize, rows: nat, looping: bool)
    requires
        row < rows,
        rows <= usize::MAX,
    ensures
        (looping || row + 1 < rows) ==> index_before(
            Some(row_after(Some(row), rows, looping) as usize),
            rows,
            looping,
        ) == row,
        (looping || row > 0) ==> row_after(
            Some(index_before(Some(row), rows, looping) as usize),
            rows,
            looping,
        ) == row,
{
}

/// Moving the selection keeps it inside the table: from no selection or a
/// selected row of the table, the next and the previous rows are rows of
/// the table, and the same holds of columns.
pub proof fn lemma_selection_in_bounds(selected: Option<usize>, count: nat, looping: bool)
    requires
        count >= 1,
        selected matches Some(s) ==> s < count,
    ensures
        row_after(selected, count, looping) < count,
        index_before(selected, count, looping) < count,
        col_after(selected, count, looping) < count,
{
}

/// The selected-row frame marks the selected row only while rows are what
/// is selected: a row is framed as selected exactly when it is a row of data,
/// it is the selected row, and the selection is of rows. So once a column is
/// selected no row is framed, and selecting a row of data frames it.
pub proof fn lemma_selected_row_frame(
    m: TableModel,
    row_ix: usize,
    rows_count: usize,
    extra_rows_count: usize,
    stripe: bool,
    col_ix: usize,
)
    ensures
        row_decoration_of(m, row_ix, rows_count, extra_rows_count, stripe).selected <==> (row_ix < rows_count
            && m.selected_row == Some(row_ix) && m.selection_state == SelectionState::Row),
        m.selection_state == SelectionState::Column ==> !row_decoration_of(
            m,
            row_ix,
            rows_count,
            extra_rows_count,
            stripe,
        ).selected,
        !row_decoration_of(m.select_col(col_ix), row_ix, rows_count, extra_rows_count, stripe).selected,
        row_ix < rows_count ==> row_decoration_of(
            m.select_row(row_ix),
            row_ix,
            rows_count,
            extra_rows_count,
            stripe,
        ).selected,
{
}

} // verus!
