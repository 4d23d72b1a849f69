//! The completion menu of a text input: when completion starts, what it
//! queries, and the edit that picking an item makes.

use std::ops::Range;
use vstd::prelude::*;
use crate::list::IndexPath;

verus! {

/// What the menu needs of a completion item.
pub struct CompletionEntry {
    /// The text shown in the menu, inserted when there is no `insert_text`.
    pub label: String,
    /// The text to insert, if it differs from the label.
    pub insert_text: Option<String>,
}

/// A completion item as plain values.
pub struct EntryView {
    pub label: Seq<char>,
    pub insert_text: Option<Seq<char>>,
}

impl View for CompletionEntry {
    type V = EntryView;

    open spec fn view(&self) -> EntryView {
        EntryView {
            label: self.label@,
            insert_text: match self.insert_text {
                Some(t) => Some(t@),
                None => None,
            },
        }
    }
}

/// The text that picking `item` inserts.
pub open spec fn insertion_text(item: EntryView) -> Seq<char> {
    match item.insert_text {
        Some(t) => t,
        None => item.label,
    }
}

pub open spec fn entry_views(items: Seq<CompletionEntry>) -> Seq<EntryView> {
    items.map_values(|e: CompletionEntry| e@)
}

/// A key action that reaches the menu.
#[derive(Debug, Clone, Copy, PartialEq, Eq, Structural)]
pub enum MenuAction {
    Enter,
    Escape,
    MoveUp,
    MoveDown,
    Other,
}

/// What the menu made of an action.
pub enum MenuCommand {
    /// The action is not for the menu.
    Ignored,
    /// The menu took the action and has nothing more to say.
    Handled,
    /// Replace the bytes `start..end` of the text with `text`.
    Insert { start: usize, end: usize, text: String },
    /// Move the selection to the previous item of the list.
    SelectPrev,
    /// Move the selection to the next item of the list.
    SelectNext,
}

/// What a completion menu holds, as plain values.
pub struct CompletionModel {
    pub offset: usize,
    pub open: bool,
    pub trigger_start_offset: Option<usize>,
    pub query: Seq<char>,
    pub items: Seq<EntryView>,
    pub selected_ix: usize,
}

/// The menu after `update_query(start_offset, query)`: the trigger start is
/// set only when there is none.
pub open spec fn with_query(m: CompletionModel, start_offset: usize, query: Seq<char>) -> CompletionModel {
    CompletionModel {
        trigger_start_offset: if m.trigger_start_offset is None {
            Some(start_offset)
        } else {
            m.trigger_start_offset
        },
        query,
        ..m
    }
}

/// The menu once hidden: closed, and the next completion starts afresh.
pub open spec fn hidden(m: CompletionModel) -> CompletionModel {
    CompletionModel { open: false, trigger_start_offset: None, ..m }
}

/// The menu once shown at `offset` with `items`, the first one selected.
pub open spec fn shown(m: CompletionModel, offset: usize, items: Seq<EntryView>) -> CompletionModel {
    CompletionModel { offset, open: true, items, selected_ix: 0, ..m }
}

/// The range of the text that picking an item replaces: from where the
/// completion was triggered to where the menu was shown.
pub open spec fn replaced_range(m: CompletionModel) -> (usize, usize) {
    (
        match m.trigger_start_offset {
            Some(s) => s,
            None => m.offset,
        },
        m.offset,
    )
}

/// A context menu for code completions.
pub struct CompletionMenu {
    offset: usize,
    open: bool,
    /// The offset of the first character that triggered the completion.
    trigger_start_offset: Option<usize>,
    query: String,
    items: Vec<CompletionEntry>,
    selected_ix: usize,
}

impl View for CompletionMenu {
    type V = CompletionModel;

    closed spec fn view(&self) -> CompletionModel {
        CompletionModel {
            offset: self.offset,
            open: self.open,
            trigger_start_offset: self.trigger_start_offset,
            query: self.query@,
            items: entry_views(self.items@),
            selected_ix: self.selected_ix,
        }
    }
}

impl CompletionMenu {
    pub fn new() -> (m: Self)
        ensures
            m@ == (CompletionModel {
                offset: 0,
                open: false,
                trigger_start_offset: None,
                query: Seq::empty(),
                items: Seq::empty(),
                selected_ix: 0,
            }),
    {
        let m = CompletionMenu {
            offset: 0,
            open: false,
            trigger_start_offset: None,
            query: String::new(),
            items: Vec::new(),
            selected_ix: 0,
        };
        proof {
            assert(entry_views(m.items@) =~= Seq::<EntryView>::empty());
        }
        m
    }

    pub fn is_open(&self) -> (b: bool)
        ensures
            b == self@.open,
    {
        self.open
    }

    pub fn trigger_start_offset(&self) -> (o: Option<usize>)
        ensures
            o == self@.trigger_start_offset,
    {
        self.trigger_start_offset
    }

    /// Hide the completion menu and reset the trigger start offset.
    pub fn hide_menu(&mut self)
        ensures
            final(self)@ == hidden(old(self)@),
    {
        self.open = false;
        self.trigger_start_offset = None;
    }

    /// Sets the trigger start offset if it is not already set, and the query.
    pub fn update_query(&mut self, start_offset: usize, query: String)
        ensures
            final(self)@ == with_query(old(self)@, start_offset, query@),
    {
        if self.trigger_start_offset.is_none() {
            self.trigger_start_offset = Some(start_offset);
        }
        self.query = query;
    }

    /// Opens the menu at `offset` with `items`, the first one selected.
    pub fn show(&mut self, offset: usize, items: Vec<CompletionEntry>)
        ensures
            final(self)@ == shown(old(self)@, offset, entry_views(items@)),
    {
        self.offset = offset;
        self.open = true;
        self.items = items;
        self.selected_ix = 0;
    }

    /// The list selected the item at `ix`, or none (then the first).
    pub fn set_selected_index(&mut self, ix: Option<IndexPath>)
        ensures
            final(self)@ == (CompletionModel {
                selected_ix: match ix {
                    Some(i) => i.row,
                    None => 0,
                },
                ..old(self)@
            }),
    {
        self.selected_ix = match ix {
            Some(i) => i.row,
            None => 0,
        };
    }

    /// The selected item, if the selection is on one.
    pub fn selected_item(&self) -> (item: Option<&CompletionEntry>)
        ensures
            self@.selected_ix < self@.items.len() ==> item is Some && item->0@ == self@.items[self@.selected_ix as int],
            self@.selected_ix >= self@.items.len() ==> item is None,
    {
        if self.selected_ix < self.items.len() {
            Some(&self.items[self.selected_ix])
        } else {
            None
        }
    }

    /// Picks `item`: the menu hides, and the returned edit replaces the text
    /// typed since the completion was triggered with the item's text.
    pub fn select_item(&mut self, item: &CompletionEntry) -> (edit: (Range<usize>, String))
        ensures
            final(self)@ == hidden(old(self)@),
            edit.0.start == replaced_range(old(self)@).0,
            edit.0.end == replaced_range(old(self)@).1,
            edit.1@ == insertion_text(item@),
    {
        let start = match self.trigger_start_offset {
            Some(s) => s,
            None => self.offset,
        };
        let range = start..self.offset;
        let text = match &item.insert_text {
            Some(t) => t.clone(),
            None => item.label.clone(),
        };
        self.hide_menu();
        (range, text)
    }

    /// Enter picks the selected item, if there is one.
    pub fn on_action_enter(&mut self) -> (edit: Option<(Range<usize>, String)>)
        ensures
            old(self)@.selected_ix < old(self)@.items.len() ==> {
                &&& final(self)@ == hidden(old(self)@)
                &&& edit matches Some((range, text))
                &&& range.start == replaced_range(old(self)@).0
                &&& range.end == replaced_range(old(self)@).1
                &&& text@ == insertion_text(old(self)@.items[old(self)@.selected_ix as int])
            },
            old(self)@.selected_ix >= old(self)@.items.len() ==> edit is None && final(self)@ == old(
                self,
            )@,
    {
        if self.selected_ix >= self.items.len() {
            return None;
        }
        let start = match self.trigger_start_offset {
            Some(s) => s,
            None => self.offset,
        };
        let range = start..self.offset;
        let text = match &self.items[self.selected_ix].insert_text {
            Some(t) => t.clone(),
            None => self.items[self.selected_ix].label.clone(),
        };
        self.hide_menu();
        Some((range, text))
    }

    /// A key action while the menu may be open: a closed menu ignores every
    /// action; an open one takes Enter, Escape and the up and down moves.
    pub fn handle_action(&mut self, action: MenuAction) -> (cmd: MenuCommand)
        ensures
            !old(self)@.open ==> cmd is Ignored && final(self)@ == old(self)@,
            old(self)@.open ==> match action {
                MenuAction::Other => cmd is Ignored && final(self)@ == old(self)@,
                MenuAction::Escape => cmd is Handled && final(self)@ == hidden(old(self)@),
                MenuAction::MoveUp => cmd is SelectPrev && final(self)@ == old(self)@,
                MenuAction::MoveDown => cmd is SelectNext && final(self)@ == old(self)@,
                MenuAction::Enter => if old(self)@.selected_ix < old(self)@.items.len() {
                    &&& final(self)@ == hidden(old(self)@)
                    &&& cmd matches MenuCommand::Insert { start, end, text }
                    &&& start == replaced_range(old(self)@).0
                    &&& end == replaced_range(old(self)@).1
                    &&& text@ == insertion_text(old(self)@.items[old(self)@.selected_ix as int])
                } else {
                    cmd is Handled && final(self)@ == old(self)@
                },
            },
    {
        if !self.open {
            return MenuCommand::Ignored;
        }
        match action {
            MenuAction::Enter => match self.on_action_enter() {
                Some((range, text)) => MenuCommand::Insert { start: range.start, end: range.end, text },
                None => MenuCommand::Handled,
            },
            MenuAction::Escape => {
                self.hide_menu();
                MenuCommand::Handled
            },
            MenuAction::MoveUp => MenuCommand::SelectPrev,
            MenuAction::MoveDown => MenuCommand::SelectNext,
            MenuAction::Other => MenuCommand::Ignored,
        }
    }

    /// The completions for a query arrived: none hides the menu; otherwise
    /// the menu shows them at `offset` when the input still has the focus.
    pub fn completions_arrived(&mut self, offset: usize, items: Vec<CompletionEntry>, focused: bool)
        ensures
            items@.len() == 0 ==> final(self)@ == hidden(old(self)@),
            items@.len() > 0 && focused ==> final(self)@ == shown(
                old(self)@,
                offset,
                entry_views(items@),
            ),
            items@.len() > 0 && !focused ==> final(self)@ == old(self)@,
    {
        if items.len() == 0 {
            self.hide_menu();
        } else if focused {
            self.show(offset, items);
        }
    }
}

/// Whether the provider is asked if an edit triggers completion: not while
/// a completion is being inserted, and not when there is no provider.
pub fn completion_trigger_asked(inserting: bool, has_provider: bool) -> (ask: bool)
    ensures
        ask == (!inserting && has_provider),
{
    if inserting {
        return false;
    }
    has_provider
}

/// Where the query of a completion starts, when completion goes ahead after
/// `range` was replaced by text and the cursor moved to `cursor`: not while a
/// completion is being inserted, not without a provider, not when the
/// provider says the new text does not trigger one, and not when the cursor
/// is before the start. The start is where an open completion was
/// triggered, else the end of the replaced range.
pub fn completion_query_start(
    inserting: bool,
    has_provider: bool,
    is_trigger: bool,
    range: Range<usize>,
    cursor: usize,
    menu_trigger: Option<usize>,
) -> (start: Option<usize>)
    ensures
        start == if inserting || !has_provider || !is_trigger {
            None
        } else {
            let s = match menu_trigger {
                Some(t) => t,
                None => range.end,
            };
            if cursor < s {
                None
            } else {
                Some(s)
            }
        },
{
    if !completion_trigger_asked(inserting, has_provider) || !is_trigger {
        return None;
    }
    let start_offset = match menu_trigger {
        Some(t) => t,
        None => range.end,
    };
    if cursor < start_offset {
        return None;
    }
    Some(start_offset)
}

/// The code action provider to perform an action with: the first whose id
/// is the action's, if any.
pub fn find_provider(provider_ids: &Vec<String>, id: &str) -> (r: Option<usize>)
    ensures
        match r {
            Some(i) => {
                &&& i < provider_ids@.len()
                &&& provider_ids@[i as int]@ == id@
                &&& forall|k: int| 0 <= k < i ==> provider_ids@[k]@ != id@
            },
            None => forall|k: int| 0 <= k < provider_ids@.len() ==> provider_ids@[k]@ != id@,
        },
{
    let mut i: usize = 0;
    while i < provider_ids.len()
        invariant
            i <= provider_ids@.len(),
            forall|k: int| 0 <= k < i ==> provider_ids@[k]@ != id@,
        decreases provider_ids@.len() - i,
    {
        if crate::languages::same_text(provider_ids[i].as_str(), id) {
            return Some(i);
        }
        i += 1;
    }
    None
}

/// Once a completion is triggered, further queries keep its start until the
/// menu hides; after hiding, the next query starts where it is typed.
pub proof fn lemma_trigger_start_kept(
    m: CompletionModel,
    first: usize,
    second: usize,
    q1: Seq<char>,
    q2: Seq<char>,
)
    requires
        m.trigger_start_offset is None,
    ensures
        with_query(with_query(m, first, q1), second, q2).trigger_start_offset == Some(first),
        with_query(hidden(with_query(m, first, q1)), second, q2).trigger_start_offset == Some(
            second,
        ),
{
}

/// Picking an item right after the menu is shown at `offset` for a query
/// triggered at `start` replaces exactly `start..offset`, and closes the menu.
pub proof fn lemma_pick_replaces_query(
    m: CompletionModel,
    start: usize,
    query: Seq<char>,
    offset: usize,
    items: Seq<EntryView>,
)
    requires
        m.trigger_start_offset is None,
    ensures
        replaced_range(shown(with_query(m, start, query), offset, items)) == (start, offset),
        !hidden(shown(with_query(m, start, query), offset, items)).open,
{
}

} // verus!
