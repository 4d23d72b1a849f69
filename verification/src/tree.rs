//! A tree of labelled items, flattened into the list of rows it is shown
//! as: each item followed by its descendants, with its depth.

use vstd::prelude::*;

verus! {

/// An item of a tree: its label, whether it is disabled, and its children.
pub struct TreeItem {
    pub label: String,
    pub disabled: bool,
    pub children: Vec<TreeItem>,
}

/// A row of a flattened tree: its index among the rows, the item's label and
/// whether it is disabled, its depth (0 for a top-level item), and whether
/// it is selected.
pub struct InnerTreeItem {
    pub id: usize,
    pub label: String,
    pub disabled: bool,
    pub depth: usize,
    pub selected: bool,
}

/// What a row shows: label, disabled, depth.
pub type RowModel = (Seq<char>, bool, nat);

impl InnerTreeItem {
    pub open spec fn model(&self) -> RowModel {
        (self.label@, self.disabled, self.depth as nat)
    }

    /// The row with index `index` for an item at depth `depth`, not
    /// selected.
    pub fn new(index: usize, label: String, disabled: bool, depth: usize) -> (r: Self)
        ensures
            r.id == index,
            r.label@ == label@,
            r.disabled == disabled,
            r.depth == depth,
            !r.selected,
    {
        InnerTreeItem { id: index, label, disabled, depth, selected: false }
    }
}

/// The rows of `item` at depth `depth`: the item, then the rows of its
/// children one level deeper.
pub open spec fn item_rows(item: TreeItem, depth: nat) -> Seq<RowModel>
    decreases item,
{
    seq![(item.label@, item.disabled, depth)] + items_rows(item.children@, depth + 1)
}

/// The rows of `items` at depth `depth`, one item after the other.
pub open spec fn items_rows(items: Seq<TreeItem>, depth: nat) -> Seq<RowModel>
    decreases items,
{
    if items.len() == 0 {
        Seq::empty()
    } else {
        items_rows(items.subrange(0, items.len() - 1), depth) + item_rows(items[items.len() - 1], depth)
    }
}

/// The shown rows of a sequence of rows.
pub open spec fn rows_model(rows: Seq<InnerTreeItem>) -> Seq<RowModel> {
    rows.map_values(|r: InnerTreeItem| r.model())
}

/// Every row's index is its position and no row is selected.
pub open spec fn rows_indexed(rows: Seq<InnerTreeItem>) -> bool {
    forall|k: int| 0 <= k < rows.len() ==> (#[trigger] rows[k]).id == k && !rows[k].selected
}

/// Appends the rows of `item` at depth `depth`.
fn build_items(items: &mut Vec<InnerTreeItem>, item: &TreeItem, depth: usize)
    requires
        depth <= old(items)@.len(),
        rows_indexed(old(items)@),
    ensures
        rows_model(final(items)@) == rows_model(old(items)@) + item_rows(*item, depth as nat),
        rows_indexed(final(items)@),
        old(items)@.len() < final(items)@.len(),
    decreases item,
{
    let ghost start = items@;
    let ix = items.len();
    items.push(InnerTreeItem::new(ix, item.label.clone(), item.disabled, depth));
    let ghost head = items@;
    proof {
        assert(rows_model(head) =~= rows_model(start) + seq![(item.label@, item.disabled, depth as nat)]);
    }
    let mut i: usize = 0;
    while i < item.children.len()
        invariant
            i <= item.children@.len(),
            depth < items@.len(),
            start.len() < items@.len(),
            rows_indexed(items@),
            rows_model(items@) == rows_model(head) + items_rows(item.children@.take(i as int), depth as nat + 1),
        decreases item.children@.len() - i,
    {
        proof {
            assert(item.children@.take(i + 1).subrange(0, i as int) =~= item.children@.take(i as int));
            assert(decreases_to!(item => item.children));
            assert(decreases_to!(item.children => item.children@));
            assert(decreases_to!(item.children@ => item.children@[i as int]));
            assert(items.len() == items@.len());
        }
        build_items(items, &item.children[i], depth + 1);
        i += 1;
    }
    proof {
        assert(item.children@.take(i as int) =~= item.children@);
    }
}

/// A tree shown as the flat list of its rows, with at most one selected.
pub struct Tree {
    items: Vec<InnerTreeItem>,
    selected_index: Option<usize>,
}

impl Tree {
    /// The rows shown.
    pub closed spec fn spec_rows(&self) -> Seq<InnerTreeItem> {
        self.items@
    }

    /// The index of the selected row, if any.
    pub closed spec fn spec_selected_index(&self) -> Option<usize> {
        self.selected_index
    }

    /// The tree of `items`, flattened: each item followed by its
    /// descendants, each row knowing its index and depth; nothing selected.
    pub fn new(items: Vec<TreeItem>) -> (t: Self)
        ensures
            rows_model(t.spec_rows()) == items_rows(items@, 0),
            rows_indexed(t.spec_rows()),
            t.spec_selected_index() is None,
    {
        let mut t = Tree { items: Vec::new(), selected_index: None };
        t.prepare_items(items);
        t
    }

    /// Replaces the rows by those of `items`; the selection is kept.
    pub fn set_items(&mut self, items: Vec<TreeItem>)
        ensures
            rows_model(final(self).spec_rows()) == items_rows(items@, 0),
            rows_indexed(final(self).spec_rows()),
            final(self).spec_selected_index() == old(self).spec_selected_index(),
    {
        self.prepare_items(items);
    }

    fn prepare_items(&mut self, items: Vec<TreeItem>)
        ensures
            rows_model(final(self).items@) == items_rows(items@, 0),
            rows_indexed(final(self).items@),
            final(self).selected_index == old(self).selected_index,
    {
        self.items.clear();
        proof {
            assert(rows_model(self.items@) =~= Seq::<RowModel>::empty());
        }
        let mut i: usize = 0;
        while i < items.len()
            invariant
                i <= items@.len(),
                rows_indexed(self.items@),
                rows_model(self.items@) == items_rows(items@.take(i as int), 0),
                self.selected_index == old(self).selected_index,
            decreases items@.len() - i,
        {
            proof {
                assert(items@.take(i + 1).subrange(0, i as int) =~= items@.take(i as int));
            }
            build_items(&mut self.items, &items[i], 0);
            i += 1;
        }
        proof {
            assert(items@.take(i as int) =~= items@);
        }
    }

    /// The rows shown, in order.
    pub fn rows(&self) -> (r: &Vec<InnerTreeItem>)
        ensures
            r@ == self.spec_rows(),
    {
        &self.items
    }
}

} // verus!
