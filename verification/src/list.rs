//! The selection and query state of a list of sectioned items.

use vstd::prelude::*;

verus! {

/// The position of an item: its section and its row within the section.
#[derive(Debug, Clone, Copy, PartialEq, Eq, Structural)]
pub struct IndexPath {
    pub section: usize,
    pub row: usize,
    pub column: usize,
}

impl Default for IndexPath {
    fn default() -> (ix: Self)
        ensures
            ix == (IndexPath { section: 0, row: 0, column: 0 }),
    {
        IndexPath { section: 0, row: 0, column: 0 }
    }
}

impl IndexPath {
    /// The item at `row` of the first section.
    pub fn new(row: usize) -> (ix: Self)
        ensures
            ix == (IndexPath { section: 0, row, column: 0 }),
    {
        IndexPath { section: 0, row, column: 0 }
    }

    /// Whether two paths point at the same row (columns aside).
    pub fn eq_row(&self, other: IndexPath) -> (b: bool)
        ensures
            b == (self.section == other.section && self.row == other.row),
    {
        self.section == other.section && self.row == other.row
    }
}

/// What a list emits.
#[derive(Debug, Clone, Copy, PartialEq, Eq, Structural)]
pub enum ListEvent {
    /// Move to select item.
    Select(IndexPath),
    /// Click on item or pressed Enter.
    Confirm(IndexPath),
    /// Pressed ESC to deselect the item.
    Cancel,
}

/// What a list state holds, as plain values.
pub struct ListModel {
    pub section_items_count: Seq<usize>,
    pub selected_index: Option<IndexPath>,
    pub item_to_measure_index: IndexPath,
    pub mouse_right_clicked_index: Option<IndexPath>,
    pub last_query: Option<Seq<char>>,
    pub selectable: bool,
    pub querying: bool,
    pub scrollbar_visible: bool,
    pub reset_on_cancel: bool,
    pub load_more_threshold: usize,
}

/// The selection and query state of a list.
pub struct ListState {
    section_items_count: Vec<usize>,
    selected_index: Option<IndexPath>,
    item_to_measure_index: IndexPath,
    mouse_right_clicked_index: Option<IndexPath>,
    last_query: Option<String>,
    selectable: bool,
    querying: bool,
    scrollbar_visible: bool,
    reset_on_cancel: bool,
    load_more_threshold: usize,
}

impl View for ListState {
    type V = ListModel;

    closed spec fn view(&self) -> ListModel {
        ListModel {
            section_items_count: self.section_items_count@,
            selected_index: self.selected_index,
            item_to_measure_index: self.item_to_measure_index,
            mouse_right_clicked_index: self.mouse_right_clicked_index,
            last_query: match self.last_query {
                Some(q) => Some(q@),
                None => None,
            },
            selectable: self.selectable,
            querying: self.querying,
            scrollbar_visible: self.scrollbar_visible,
            reset_on_cancel: self.reset_on_cancel,
            load_more_threshold: self.load_more_threshold,
        }
    }
}

impl ListState {
    /// Create a new list with a single section of `items_count` items.
    pub fn new(items_count: usize) -> (s: Self)
        ensures
            s@ == (ListModel { section_items_count: seq![items_count], ..Self::spec_initial() }),
    {
        let mut counts = Vec::new();
        counts.push(items_count);
        Self::sections(counts)
    }

    /// A new list before any section is given.
    pub open spec fn spec_initial() -> ListModel {
        ListModel {
            section_items_count: Seq::empty(),
            selected_index: None,
            item_to_measure_index: IndexPath { section: 0, row: 0, column: 0 },
            mouse_right_clicked_index: None,
            last_query: None,
            selectable: true,
            querying: false,
            scrollbar_visible: true,
            reset_on_cancel: true,
            load_more_threshold: 20,
        }
    }

    /// Create a new list with the given sections; each count is the number
    /// of items of that section.
    pub fn sections(section_items_count: Vec<usize>) -> (s: Self)
        ensures
            s@ == (ListModel {
                section_items_count: section_items_count@,
                ..Self::spec_initial()
            }),
    {
        ListState {
            section_items_count,
            selected_index: None,
            item_to_measure_index: IndexPath::default(),
            mouse_right_clicked_index: None,
            last_query: None,
            selectable: true,
            querying: false,
            scrollbar_visible: true,
            reset_on_cancel: true,
            load_more_threshold: 20,
        }
    }

    /// Reset the items count and clear the selection and query state.
    pub fn reset(&mut self, section_items_count: Vec<usize>)
        ensures
            final(self)@ == (ListModel {
                section_items_count: section_items_count@,
                selected_index: None,
                item_to_measure_index: IndexPath { section: 0, row: 0, column: 0 },
                mouse_right_clicked_index: None,
                last_query: None,
                querying: false,
                ..old(self)@
            }),
    {
        self.section_items_count = section_items_count;
        self.selected_index = None;
        self.item_to_measure_index = IndexPath::default();
        self.mouse_right_clicked_index = None;
        self.last_query = None;
        self.querying = false;
    }

    /// Set a threshold value (n entities): when scrolling to the bottom, the
    /// remaining number of rows triggers `load_more`. Default: 20.
    pub fn load_more_threshold(self, threshold: usize) -> (s: Self)
        ensures
            s@ == (ListModel { load_more_threshold: threshold, ..self@ }),
    {
        let mut this = self;
        this.load_more_threshold = threshold;
        this
    }

    /// Set the visibility of the scrollbar, default is true.
    pub fn scrollbar_visible(self, visible: bool) -> (s: Self)
        ensures
            s@ == (ListModel { scrollbar_visible: visible, ..self@ }),
    {
        let mut this = self;
        this.scrollbar_visible = visible;
        this
    }

    /// Sets whether the list is selectable, default is true.
    pub fn selectable(self, selectable: bool) -> (s: Self)
        ensures
            s@ == (ListModel { selectable, ..self@ }),
    {
        let mut this = self;
        this.selectable = selectable;
        this
    }

    /// Sets whether Escape clears the selection, default is true.
    pub fn reset_on_cancel(self, reset: bool) -> (s: Self)
        ensures
            s@ == (ListModel { reset_on_cancel: reset, ..self@ }),
    {
        let mut this = self;
        this.reset_on_cancel = reset;
        this
    }

    /// Set the selected index of the list. Returns the index that the
    /// list's `on_select` callback is then run with, which is always the new
    /// one.
    pub fn set_selected_index(&mut self, ix: Option<IndexPath>) -> (on_select: Option<IndexPath>)
        ensures
            final(self)@ == (ListModel { selected_index: ix, ..old(self)@ }),
            on_select == ix,
    {
        self.selected_index = ix;
        self.selected_index
    }

    pub fn selected_index(&self) -> (ix: Option<IndexPath>)
        ensures
            ix == self@.selected_index,
    {
        self.selected_index
    }

    /// Set a specific list item for measurement.
    pub fn set_item_to_measure_index(&mut self, ix: IndexPath)
        ensures
            final(self)@ == (ListModel { item_to_measure_index: ix, ..old(self)@ }),
    {
        self.item_to_measure_index = ix;
    }

    /// Whether scrolling to item `ix` is a scroll to the very top (the first
    /// item); any other item is scrolled to once it is laid out.
    pub fn scrolls_to_top(ix: IndexPath) -> (b: bool)
        ensures
            b == (ix.section == 0 && ix.row == 0),
    {
        ix.section == 0 && ix.row == 0
    }

    /// The item to scroll to for the selection, if any.
    pub fn scroll_to_selected_item(&self) -> (ix: Option<IndexPath>)
        ensures
            ix == self@.selected_index,
    {
        self.selected_index
    }

    /// Whether to load more entities: the visible end is within the
    /// threshold of the last entity.
    pub fn load_more_if_need(&self, entities_count: usize, visible_end: usize) -> (b: bool)
        ensures
            b == (visible_end + self@.load_more_threshold >= entities_count),
    {
        let threshold = self.load_more_threshold;
        visible_end >= entities_count.saturating_sub(threshold)
    }

    /// Escape: the selection is cleared when the list resets on cancel, and
    /// `Cancel` is emitted.
    pub fn on_action_cancel(&mut self) -> (e: ListEvent)
        ensures
            e == ListEvent::Cancel,
            old(self)@.reset_on_cancel ==> final(self)@ == (ListModel {
                selected_index: None,
                ..old(self)@
            }),
            !old(self)@.reset_on_cancel ==> final(self)@ == old(self)@,
    {
        if self.reset_on_cancel {
            self.selected_index = None;
        }
        ListEvent::Cancel
    }

    /// Enter on a list of `rows_count` rows: confirms the selected item, if
    /// there are rows and an item is selected.
    pub fn on_action_confirm(&self, rows_count: usize) -> (e: Option<ListEvent>)
        ensures
            e == if rows_count > 0 && self@.selected_index is Some {
                Some(ListEvent::Confirm(self@.selected_index->0))
            } else {
                None
            },
    {
        if rows_count == 0 {
            return None;
        }
        match self.selected_index {
            Some(ix) => Some(ListEvent::Confirm(ix)),
            None => None,
        }
    }

    /// Selects item `ix` and reports it.
    pub fn select_item(&mut self, ix: IndexPath) -> (e: ListEvent)
        ensures
            e == ListEvent::Select(ix),
            final(self)@ == (ListModel { selected_index: Some(ix), ..old(self)@ }),
    {
        self.selected_index = Some(ix);
        ListEvent::Select(ix)
    }

    /// A mouse press on item `ix` of a selectable list with `rows_count`
    /// rows: the right button marks the item; any other selects it and
    /// confirms it.
    pub fn on_item_mouse_down(&mut self, ix: IndexPath, right_button: bool, rows_count: usize) -> (e:
        Option<ListEvent>)
        ensures
            !old(self)@.selectable ==> e is None && final(self)@ == old(self)@,
            old(self)@.selectable && right_button ==> e is None && final(self)@ == (ListModel {
                mouse_right_clicked_index: Some(ix),
                ..old(self)@
            }),
            old(self)@.selectable && !right_button ==> final(self)@ == (ListModel {
                mouse_right_clicked_index: None,
                selected_index: Some(ix),
                ..old(self)@
            }) && e == if rows_count > 0 {
                Some(ListEvent::Confirm(ix))
            } else {
                None
            },
    {
        if !self.selectable {
            return None;
        }
        if right_button {
            self.mouse_right_clicked_index = Some(ix);
            return None;
        }
        self.mouse_right_clicked_index = None;
        self.selected_index = Some(ix);
        self.on_action_confirm(rows_count)
    }

    /// The query input changed to `text` (trimmed), with `rows_count` rows
    /// shown: unless it is the last query, a search starts (`true`) and the
    /// first item is selected, or nothing when there are no rows.
    pub fn on_query_changed(&mut self, text: &str, rows_count: usize) -> (search: bool)
        ensures
            search == (old(self)@.last_query != Some(text@)),
            !search ==> final(self)@ == old(self)@,
            search ==> final(self)@ == (ListModel {
                querying: true,
                selected_index: if rows_count > 0 {
                    Some(IndexPath { section: 0, row: 0, column: 0 })
                } else {
                    None
                },
                ..old(self)@
            }),
    {
        let same = match &self.last_query {
            Some(q) => crate::languages::same_text(q.as_str(), text),
            None => false,
        };
        if same {
            return false;
        }
        self.querying = true;
        if rows_count > 0 {
            self.selected_index = Some(IndexPath::default());
        } else {
            self.selected_index = None;
        }
        true
    }

    /// The search for `text` is over.
    pub fn on_query_done(&mut self, text: String)
        ensures
            final(self)@ == (ListModel {
                last_query: Some(text@),
                querying: false,
                ..old(self)@
            }),
    {
        self.last_query = Some(text);
        self.querying = false;
    }

    pub fn is_querying(&self) -> (b: bool)
        ensures
            b == self@.querying,
    {
        self.querying
    }
}

} // verus!
