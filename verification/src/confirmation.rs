use crate::rotate::{iter_next_sel, next_sel, prev_sel};
use crate::table::Datatable;
use vstd::prelude::*;
use vstd::string::StringExecFns;

verus! {

/// The two-option confirmation dialog shown before a destructive action.
/// Its table always holds exactly `No` and `Yes`, in that order, with one of
/// them selected; confirming means the selection rests on `Yes`.
pub struct ConfirmationBox {
    pub table: Datatable<String>,
}

impl ConfirmationBox {
    /// The selected option index: 0 is `No`, 1 is `Yes`.
    pub open spec fn spec_selected(&self) -> Option<usize> {
        self.table.state.selected
    }

    /// Exactly the options `No` and `Yes`, and something always selected.
    pub open spec fn wf(&self) -> bool {
        &&& self.table.data.entries@.len() == 2
        &&& self.table.data.entries@[0]@ == "No"@
        &&& self.table.data.entries@[1]@ == "Yes"@
        &&& self.spec_selected() matches Some(i) && i < 2
    }

    /// Put the selection back on `No`, the safe default.
    pub fn reset(&mut self)
        requires
            old(self).wf(),
        ensures
            final(self).wf(),
            final(self).table.data == old(self).table.data,
            final(self).spec_selected() == Some(0usize),
    {
        self.table.state.select(Some(0));
    }

    /// Whether confirming now would approve the action: the selection rests
    /// on `Yes`.
    pub fn is_confirmed(&self) -> (r: bool)
        ensures
            r == (self.spec_selected() == Some(1usize)),
    {
        match self.table.state.selected() {
            Some(i) => i == 1,
            None => false,
        }
    }

    /// Move the selection down, wrapping over the two options.
    pub fn next(&mut self)
        requires
            old(self).wf(),
        ensures
            final(self).wf(),
            final(self).table.data == old(self).table.data,
            final(self).spec_selected() == next_sel(2, old(self).spec_selected()),
    {
        self.table.next();
    }

    /// Move the selection up, wrapping over the two options.
    pub fn previous(&mut self)
        requires
            old(self).wf(),
        ensures
            final(self).wf(),
            final(self).table.data == old(self).table.data,
            final(self).spec_selected() == prev_sel(2, old(self).spec_selected()),
    {
        self.table.previous();
    }
}

impl Default for ConfirmationBox {
    /// A dialog offering `No` and `Yes` with `No` selected.
    fn default() -> (r: Self)
        ensures
            r.wf(),
            r.spec_selected() == Some(0usize),
    {
        let mut entries: Vec<String> = Vec::new();
        entries.push(String::from_str("No"));
        entries.push(String::from_str("Yes"));
        let mut table = Datatable::new(entries);
        table.state.select(Some(0));
        ConfirmationBox { table }
    }
}

/// Selection wraps with period two: any even number of `next` presses puts
/// the dialog back where it started, and one press from `No` reaches `Yes`.
pub proof fn lemma_confirmation_period(i: usize)
    requires
        i < 2,
    ensures
        next_sel(2, next_sel(2, Some(i))) == Some(i),
        next_sel(2, Some(0usize)) == Some(1usize),
        iter_next_sel(2, Some(i), 2) == Some(i),
{
    crate::rotate::lemma_next_sel_cycle(2, i);
    assert(iter_next_sel(2, Some(i), 2) == next_sel(2, next_sel(2, Some(i))));
}

} // verus!
