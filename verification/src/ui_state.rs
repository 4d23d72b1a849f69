//! Small pieces of element state: the copied flag of a clipboard button,
//! the active flag of a resize handle, and the marker of a string field.

use std::marker::PhantomData;
use vstd::prelude::*;

verus! {

/// The state of a clipboard button: whether its content was just copied.
pub struct ClipboardState {
    copied: bool,
}

impl Default for ClipboardState {
    fn default() -> (s: Self)
        ensures
            !s.spec_copied(),
    {
        ClipboardState { copied: false }
    }
}

impl ClipboardState {
    pub closed spec fn spec_copied(&self) -> bool {
        self.copied
    }

    pub fn copied(&self) -> (b: bool)
        ensures
            b == self.spec_copied(),
    {
        self.copied
    }

    /// A click on the button: when nothing was just copied, the content is
    /// to be copied (`true`) and the button shows it was; a click while it
    /// shows that does nothing.
    pub fn click(&mut self) -> (copy: bool)
        ensures
            copy == !old(self).spec_copied(),
            final(self).spec_copied(),
    {
        if self.copied {
            return false;
        }
        self.copied = true;
        true
    }

    /// The time to show the copy is over.
    pub fn reset(&mut self)
        ensures
            !final(self).spec_copied(),
    {
        self.copied = false;
    }
}

/// The active flags of resize handles, one cell per handle state. A handle
/// state is a reference to its cell, so all copies of a state share it: a
/// change made through one is seen through every other.
pub struct ResizeHandleCells {
    cells: Vec<bool>,
}

impl ResizeHandleCells {
    pub closed spec fn spec_cells(&self) -> Seq<bool> {
        self.cells@
    }

    pub fn new() -> (c: Self)
        ensures
            c.spec_cells() == Seq::<bool>::empty(),
    {
        ResizeHandleCells { cells: Vec::new() }
    }

    /// A new handle state with a cell of its own, not active.
    pub fn new_state(&mut self) -> (s: ResizeHandleState)
        requires
            old(self).spec_cells().len() < usize::MAX,
        ensures
            s.spec_cell() == old(self).spec_cells().len(),
            final(self).spec_cells() == old(self).spec_cells().push(false),
    {
        let cell = self.cells.len();
        self.cells.push(false);
        ResizeHandleState { cell }
    }
}

/// The state of a resize handle: whether it is being dragged. Copies share
/// the flag, which lives in a [`ResizeHandleCells`].
#[derive(Debug, Clone, Copy)]
pub struct ResizeHandleState {
    cell: usize,
}

impl ResizeHandleState {
    /// The cell of the flag.
    pub closed spec fn spec_cell(&self) -> nat {
        self.cell as nat
    }

    /// Sets the flag that this state and all its copies share.
    pub fn set_active(&self, cells: &mut ResizeHandleCells, active: bool)
        requires
            self.spec_cell() < old(cells).spec_cells().len(),
        ensures
            final(cells).spec_cells() == old(cells).spec_cells().update(self.spec_cell() as int, active),
    {
        cells.cells.set(self.cell, active);
    }

    pub fn is_active(&self, cells: &ResizeHandleCells) -> (b: bool)
        requires
            self.spec_cell() < cells.spec_cells().len(),
        ensures
            b == cells.spec_cells()[self.spec_cell() as int],
    {
        cells.cells[self.cell]
    }
}

/// Copies of a handle state share its flag: once it is set through one copy,
/// every copy (every state with the same cell) reads the new value, and the
/// states of other handles keep theirs.
pub proof fn lemma_copies_share_active(
    cells: Seq<bool>,
    s: ResizeHandleState,
    t: ResizeHandleState,
    active: bool,
)
    requires
        s.spec_cell() < cells.len(),
        t.spec_cell() < cells.len(),
    ensures
        s.spec_cell() == t.spec_cell() ==> cells.update(s.spec_cell() as int, active)[t.spec_cell() as int]
            == active,
        s.spec_cell() != t.spec_cell() ==> cells.update(s.spec_cell() as int, active)[t.spec_cell() as int]
            == cells[t.spec_cell() as int],
{
}

/// A setting field edited as a string, for values of type `T`.
pub struct StringField<T> {
    _marker: PhantomData<T>,
}

impl<T> StringField<T> {
    pub fn new() -> (f: Self) {
        StringField { _marker: PhantomData }
    }
}

} // verus!
