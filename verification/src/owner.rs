//! Shared ownership of one cell.
//!
//! An [`Owner`] is a cell together with the number of handles that keep it
//! alive. Taking another handle counts one up, giving a handle back counts
//! one down, and the cell and its value go when the last handle does.

use crate::ref_cell::CellView;
use crate::ref_cell::RefCell;
use vstd::prelude::*;

verus! {

/// An owner as contracts see it: the handles that are out, and the cell.
pub struct OwnerView<T> {
    /// The number of handles that keep the cell alive.
    pub handles: nat,
    /// The cell that the handles share.
    pub cell: CellView<T>,
}

impl<T> OwnerView<T> {
    /// At least one handle is out, no more than a machine word counts, and
    /// the cell is in order.
    pub open spec fn wf(self) -> bool {
        1 <= self.handles <= usize::MAX && self.cell.wf()
    }

    /// One more handle can be counted.
    pub open spec fn can_clone(self) -> bool {
        self.handles < usize::MAX
    }

    /// A handle can be given back: it is not the last one, or nothing holds
    /// the cell any more.
    pub open spec fn can_drop(self) -> bool {
        self.handles > 1 || (self.handles == 1 && self.cell.is_free())
    }

    /// The owner after one more handle was taken.
    pub open spec fn cloned(self) -> Self {
        OwnerView { handles: self.handles + 1, cell: self.cell }
    }

    /// What is left after a handle was given back: the owner with one handle
    /// less, or nothing after the last one.
    pub open spec fn dropped(self) -> Option<Self> {
        if self.handles > 1 {
            Some(OwnerView { handles: (self.handles - 1) as nat, cell: self.cell })
        } else {
            None
        }
    }

    /// The owner after `n` more handles were taken.
    pub open spec fn cloned_times(self, n: nat) -> Self
        decreases n,
    {
        if n == 0 {
            self
        } else {
            self.cloned().cloned_times((n - 1) as nat)
        }
    }

    /// What is left after `n` handles were given back.
    pub open spec fn dropped_times(self, n: nat) -> Option<Self>
        decreases n,
    {
        if n == 0 {
            Some(self)
        } else {
            match self.dropped() {
                Some(rest) => rest.dropped_times((n - 1) as nat),
                None => None,
            }
        }
    }
}

/// A cell and the count of the handles that share it.
pub struct Owner<T> {
    cell: RefCell<T>,
    handles: usize,
}

impl<T> View for Owner<T> {
    type V = OwnerView<T>;

    closed spec fn view(&self) -> OwnerView<T> {
        OwnerView { handles: self.handles as nat, cell: self.cell@ }
    }
}

impl<T> Owner<T> {
    /// Puts `value` into a free cell with one handle on it.
    pub fn wrap(value: T) -> (owner: Self)
        ensures
            owner@.handles == 1,
            owner@.cell.is_free(),
            owner@.cell.value == value,
    {
        Self { cell: RefCell::new(value), handles: 1 }
    }

    /// The number of handles that are out.
    pub fn handles(&self) -> (handles: usize)
        ensures
            handles == self@.handles,
    {
        self.handles
    }

    /// Takes one more handle on the same cell.
    pub fn clone_handle(&mut self)
        requires
            old(self)@.can_clone(),
        ensures
            final(self)@ == old(self)@.cloned(),
    {
        self.handles = self.handles + 1;
    }

    /// Gives one handle back. While others are out the owner comes back with
    /// one handle less and its cell untouched. With the last handle the cell
    /// and its value go, and nothing comes back.
    pub fn drop_handle(self) -> (rest: Option<Self>)
        requires
            self@.can_drop(),
        ensures
            match rest {
                Some(left) => self@.dropped() == Some(left@),
                None => self@.dropped() is None,
            },
    {
        if self.handles > 1 {
            Some(Self { cell: self.cell, handles: self.handles - 1 })
        } else {
            None
        }
    }

    /// The shared cell.
    pub fn cell(&self) -> (cell: &RefCell<T>)
        ensures
            cell@ == self@.cell,
    {
        &self.cell
    }

    /// The shared cell, to take holds on it and to hand them back.
    pub fn cell_mut(&mut self) -> (cell: &mut RefCell<T>)
        ensures
            cell@ == old(self)@.cell,
            final(self)@ == (OwnerView { handles: old(self)@.handles, cell: final(cell)@ }),
    {
        &mut self.cell
    }
}

/// Taking a handle and giving one back leaves the owner as it was.
pub proof fn lemma_drop_undoes_clone<T>(owner: OwnerView<T>)
    requires
        owner.wf(),
    ensures
        owner.cloned().can_drop(),
        owner.cloned().dropped() == Some(owner),
{
}

/// After `n` more handles were taken and `n` handles were given back, in
/// this order, the owner is what it was: its cell is alive, with the same
/// value and the same holds.
pub proof fn lemma_clones_dropped<T>(owner: OwnerView<T>, n: nat)
    requires
        owner.wf(),
        owner.handles + n <= usize::MAX,
    ensures
        owner.cloned_times(n).wf(),
        owner.cloned_times(n).handles == owner.handles + n,
        owner.cloned_times(n).cell == owner.cell,
        owner.cloned_times(n).dropped_times(n) == Some(owner),
    decreases n,
{
    if n > 0 {
        lemma_clones_of_clone(owner, (n - 1) as nat);
        lemma_clones_dropped(owner, (n - 1) as nat);
    }
}

/// It makes no difference whether the first or the last of `n + 1` handles
/// is counted apart.
pub proof fn lemma_clones_of_clone<T>(owner: OwnerView<T>, n: nat)
    ensures
        owner.cloned().cloned_times(n) == owner.cloned_times(n).cloned(),
    decreases n,
{
    if n > 0 {
        lemma_clones_of_clone(owner.cloned(), (n - 1) as nat);
    }
}

/// With the last handle the cell goes: nothing is left of the owner, so no
/// handle can be given back a second time.
pub proof fn lemma_last_drop_ends<T>(owner: OwnerView<T>)
    requires
        owner.wf(),
        owner.handles == 1,
    ensures
        owner.dropped() is None,
        owner.dropped_times(1) is None,
        forall|n: nat| n >= 1 ==> (#[trigger] owner.dropped_times(n)) is None,
{
    assert forall|n: nat| n >= 1 implies (#[trigger] owner.dropped_times(n)) is None by {
    }
}

} // verus!
