use crate::rotate::{next_sel, prev_sel, sel_in_range};
use vstd::arithmetic::div_mod::{lemma_mod_self_0, lemma_small_mod};
use vstd::prelude::*;

verus! {

/// Which row of a table is highlighted. `None` means no row is selected yet.
pub struct TableState {
    pub selected: Option<usize>,
}

impl TableState {
    /// A fresh state with nothing selected.
    pub fn new() -> (r: Self)
        ensures
            r.selected is None,
    {
        TableState { selected: None }
    }

    /// The currently selected row index, if any.
    pub fn selected(&self) -> (r: Option<usize>)
        ensures
            r == self.selected,
    {
        self.selected
    }

    /// Set the selection outright. Keeping the selection inside the backing
    /// table's bounds is the caller's business.
    pub fn select(&mut self, sel: Option<usize>)
        ensures
            final(self).selected == sel,
    {
        self.selected = sel;
    }
}

/// Plain ordered storage for a table's rows.
pub struct DataContainer<T> {
    pub entries: Vec<T>,
}

impl<T> DataContainer<T> {
    /// Borrow the rows.
    pub fn get(&self) -> (r: &Vec<T>)
        ensures
            *r == self.entries,
    {
        &self.entries
    }

    /// Borrow the rows mutably.
    pub fn get_mut(&mut self) -> (r: &mut Vec<T>)
        ensures
            *r == old(self).entries,
            final(self).entries == *final(r),
    {
        &mut self.entries
    }

    /// Replace the rows wholesale.
    pub fn set(&mut self, o: Vec<T>)
        ensures
            final(self).entries == o,
    {
        self.entries = o;
    }
}

/// Stateful container for tabular data: an ordered sequence of rows plus an
/// optional selected index with wraparound next/previous navigation.
///
/// The well-formedness invariant [`Datatable::wf`] keeps the selection either
/// `None` or a valid index; every operation here preserves it.
pub struct Datatable<T> {
    pub data: DataContainer<T>,
    pub state: TableState,
}

impl<T> Datatable<T> {
    /// Number of rows.
    pub open spec fn spec_len(&self) -> nat {
        self.data.entries@.len()
    }

    /// The selection, for contracts.
    pub open spec fn spec_selected(&self) -> Option<usize> {
        self.state.selected
    }

    /// The selection is `None` or a valid row index.
    pub open spec fn wf(&self) -> bool {
        sel_in_range(self.spec_len(), self.state.selected)
    }

    /// A table over the given rows with nothing selected.
    pub fn new(data: Vec<T>) -> (r: Self)
        ensures
            r.wf(),
            r.data.entries == data,
            r.state.selected is None,
    {
        Datatable { data: DataContainer { entries: data }, state: TableState::new() }
    }

    /// Number of rows.
    pub fn len(&self) -> (r: usize)
        ensures
            r == self.spec_len(),
    {
        self.data.entries.len()
    }

    /// Move the selection one row down, wrapping from the last row to the
    /// first. Selects the first row when nothing is selected. A no-op, not an
    /// error, on an empty table.
    pub fn next(&mut self)
        requires
            old(self).wf(),
        ensures
            final(self).wf(),
            final(self).data == old(self).data,
            final(self).state.selected == next_sel(old(self).spec_len(), old(self).state.selected),
    {
        let len = self.data.entries.len();
        if len == 0 {
            return ;
        }
        let i: usize = match self.state.selected() {
            Some(i) => {
                if i >= len - 1 {
                    0
                } else {
                    i + 1
                }
            },
            None => 0,
        };
        proof {
            if let Some(j) = self.state.selected {
                lemma_mod_self_0(len as int);
                if j + 1 < len {
                    lemma_small_mod((j + 1) as nat, len as nat);
                }
            }
        }
        self.state.select(Some(i));
    }

    /// Move the selection one row up, wrapping from the first row to the
    /// last. Selects the first row when nothing is selected. A no-op, not an
    /// error, on an empty table.
    pub fn previous(&mut self)
        requires
            old(self).wf(),
        ensures
            final(self).wf(),
            final(self).data == old(self).data,
            final(self).state.selected == prev_sel(old(self).spec_len(), old(self).state.selected),
    {
        let len = self.data.entries.len();
        if len == 0 {
            return ;
        }
        let i: usize = match self.state.selected() {
            Some(i) => {
                if i == 0 {
                    len - 1
                } else {
                    i - 1
                }
            },
            None => 0,
        };
        self.state.select(Some(i));
    }

    /// Replace the rows. Selection is positional, not identity-based: the
    /// selected index is kept as-is when it is still in bounds for the new
    /// rows and cleared otherwise.
    pub fn replace(&mut self, items: Vec<T>)
        ensures
            final(self).wf(),
            final(self).data.entries == items,
            final(self).state.selected == (match old(self).state.selected {
                Some(i) => if i < items@.len() {
                    Some(i)
                } else {
                    None
                },
                None => None::<usize>,
            }),
    {
        let keep: Option<usize> = match self.state.selected() {
            Some(i) => {
                if i < items.len() {
                    Some(i)
                } else {
                    None
                }
            },
            None => None,
        };
        self.data.set(items);
        self.state.select(keep);
    }
}

impl<T> Default for Datatable<T> {
    /// An empty table with nothing selected.
    fn default() -> (r: Self)
        ensures
            r.wf(),
            r.spec_len() == 0,
            r.state.selected is None,
    {
        Datatable { data: DataContainer { entries: Vec::new() }, state: TableState::new() }
    }
}

} // verus!
