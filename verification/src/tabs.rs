use crate::rotate::{next_index, prev_index};
use vstd::arithmetic::div_mod::{lemma_mod_self_0, lemma_small_mod};
use vstd::prelude::*;

verus! {

/// The tab bar: an ordered, fixed set of titles and the index of the active
/// tab. Navigation wraps around both ends.
pub struct TabsState {
    pub titles: Vec<String>,
    pub index: usize,
}

impl TabsState {
    /// The active index stays inside the (non-empty) title list.
    pub open spec fn wf(&self) -> bool {
        0 < self.titles@.len() && self.index < self.titles@.len()
    }

    /// A tab bar over the given titles, starting on the first tab.
    pub fn new(titles: Vec<String>) -> (r: Self)
        requires
            titles@.len() > 0,
        ensures
            r.wf(),
            r.titles == titles,
            r.index == 0,
    {
        TabsState { titles, index: 0 }
    }

    /// Advance to the next tab, wrapping past the last back to the first.
    pub fn next(&mut self)
        requires
            old(self).wf(),
        ensures
            final(self).wf(),
            final(self).titles == old(self).titles,
            final(self).index == next_index(old(self).titles@.len(), old(self).index as nat),
    {
        let len = self.titles.len();
        proof {
            lemma_mod_self_0(len as int);
            if self.index + 1 < len {
                lemma_small_mod((self.index + 1) as nat, len as nat);
            }
        }
        self.index = (self.index + 1) % len;
    }

    /// Go back to the previous tab, wrapping past the first to the last.
    pub fn previous(&mut self)
        requires
            old(self).wf(),
        ensures
            final(self).wf(),
            final(self).titles == old(self).titles,
            final(self).index == prev_index(old(self).titles@.len(), old(self).index as nat),
    {
        if self.index > 0 {
            self.index = self.index - 1;
        } else {
            self.index = self.titles.len() - 1;
        }
    }
}

} // verus!
