use crate::rotate::{next_sel, prev_sel};
use crate::table::Datatable;
use vstd::prelude::*;
use vstd::string::{StrSliceExecFns, StringExecFns};

verus! {

// The file browser's pure side: path component arithmetic and the directory
// table, modelled over plain strings. Reading directories is the shell's
// business; listings are handed in as `FileEntry` values and adopted here.

/// The position of the last `/` in a path, if any.
pub open spec fn last_slash(s: Seq<char>) -> Option<int>
    decreases s.len(),
{
    if s.len() == 0 {
        None
    } else if s.last() == '/' {
        Some(s.len() - 1)
    } else {
        last_slash(s.drop_last())
    }
}

/// The final path component: everything after the last `/`, or the whole
/// path when there is none.
pub open spec fn file_name_spec(s: Seq<char>) -> Seq<char> {
    match last_slash(s) {
        None => s,
        Some(j) => s.skip(j + 1),
    }
}

/// The enclosing directory: the path up to the last `/`. The filesystem root
/// `/` keeps its single slash and has no parent itself; a bare name without
/// any slash has none either.
pub open spec fn parent_spec(s: Seq<char>) -> Option<Seq<char>> {
    match last_slash(s) {
        None => None,
        Some(j) => if j == 0 {
            if s.len() == 1 {
                None
            } else {
                Some(seq!['/'])
            }
        } else {
            Some(s.take(j))
        },
    }
}

/// A directory joined with one of its entries' names.
pub open spec fn join_spec(dir: Seq<char>, name: Seq<char>) -> Seq<char> {
    if dir.len() == 0 {
        name
    } else if dir.last() == '/' {
        dir + name
    } else {
        dir + seq!['/'] + name
    }
}

/// Index of the last `/` of a path, scanning from the end.
fn last_slash_pos(s: &str) -> (r: Option<usize>)
    ensures
        match r {
            Some(j) => last_slash(s@) == Some(j as int) && j < s@.len() && s@[j as int] == '/',
            None => last_slash(s@) is None,
        },
{
    let n = s.unicode_len();
    let mut j: usize = n;
    proof {
        assert(s@.take(n as int) =~= s@);
    }
    while j > 0
        invariant
            j <= n == s@.len(),
            last_slash(s@) == last_slash(s@.take(j as int)),
        decreases j,
    {
        let c = s.get_char(j - 1);
        proof {
            assert(s@.take(j as int).last() == s@[j - 1]);
            assert(s@.take(j as int).drop_last() =~= s@.take(j - 1));
        }
        if c == '/' {
            return Some(j - 1);
        }
        j = j - 1;
    }
    proof {
        assert(s@.take(0) =~= Seq::<char>::empty());
    }
    None
}

/// The final component of a path: what a directory listing shows for it.
/// Empty when the path ends in a slash.
pub fn file_name_helper(path: &str) -> (r: &str)
    ensures
        r@ == file_name_spec(path@),
{
    let n = path.unicode_len();
    match last_slash_pos(path) {
        None => {
            proof {
                assert(path@.subrange(0, n as int) =~= path@);
            }
            path.substring_char(0, n)
        },
        Some(j) => path.substring_char(j + 1, n),
    }
}

/// The directory a path sits in, per [`parent_spec`].
pub fn parent_of(path: &str) -> (r: Option<String>)
    ensures
        match r {
            Some(p) => parent_spec(path@) == Some(p@),
            None => parent_spec(path@) is None,
        },
{
    let n = path.unicode_len();
    match last_slash_pos(path) {
        None => None,
        Some(j) => {
            if j == 0 {
                if n == 1 {
                    None
                } else {
                    proof {
                        reveal_strlit("/");
                    }
                    Some(String::from_str("/"))
                }
            } else {
                Some(path.substring_char(0, j).to_owned())
            }
        },
    }
}

/// Join a directory path and an entry name with a single separator.
pub fn join_path(dir: &str, name: &str) -> (r: String)
    ensures
        r@ == join_spec(dir@, name@),
{
    let n = dir.unicode_len();
    if n == 0 {
        return name.to_owned();
    }
    let last = dir.get_char(n - 1);
    let mut out = dir.to_owned();
    if last != '/' {
        proof {
            reveal_strlit("/");
        }
        out.append("/");
    }
    out.append(name);
    out
}

/// One entry of a directory listing: its display name and whether it is
/// itself a directory.
#[derive(Debug)]
pub struct FileEntry {
    pub name: String,
    pub is_dir: bool,
}

impl Clone for FileEntry {
    fn clone(&self) -> (r: Self)
        ensures
            r == *self,
    {
        FileEntry { name: self.name.clone(), is_dir: self.is_dir }
    }
}

/// A singleton's filtering keeps or drops its one element.
proof fn lemma_filter_singleton(x: FileEntry, pred: spec_fn(FileEntry) -> bool)
    ensures
        seq![x].filter(pred) == if pred(x) {
            seq![x]
        } else {
            Seq::<FileEntry>::empty()
        },
{
    reveal_with_fuel(Seq::<FileEntry>::filter, 2);
    assert(seq![x].drop_last() =~= Seq::<FileEntry>::empty());
    assert(seq![x].last() == x);
    if pred(x) {
        assert(seq![x].filter(pred) =~= seq![x]);
    }
}

/// An entry the browser shows: everything except dotfiles.
pub open spec fn visible_entry(e: FileEntry) -> bool {
    !(e.name@.len() > 0 && e.name@[0] == '.')
}

/// Keep the visible entries of a fresh listing, in order.
fn visible_entries(listing: Vec<FileEntry>) -> (r: Vec<FileEntry>)
    ensures
        r@ == listing@.filter(|e: FileEntry| visible_entry(e)),
{
    let mut out: Vec<FileEntry> = Vec::new();
    let mut i: usize = 0;
    proof {
        assert(listing@.take(0) =~= Seq::<FileEntry>::empty());
        reveal_with_fuel(Seq::<FileEntry>::filter, 1);
    }
    while i < listing.len()
        invariant
            i <= listing@.len(),
            out@ == listing@.take(i as int).filter(|e: FileEntry| visible_entry(e)),
        decreases listing@.len() - i,
    {
        let e = &listing[i];
        let n = e.name.as_str().unicode_len();
        let dotted = n > 0 && e.name.as_str().get_char(0) == '.';
        proof {
            assert(listing@.take(i + 1) =~= listing@.take(i as int) + seq![listing@[i as int]]);
            assert(seq![listing@[i as int]].drop_last() =~= Seq::<FileEntry>::empty());
        }
        if !dotted {
            out.push(e.clone());
        }
        proof {
            let pred = |e: FileEntry| visible_entry(e);
            Seq::filter_distributes_over_add(listing@.take(i as int), seq![listing@[i as int]], pred);
            lemma_filter_singleton(listing@[i as int], pred);
            assert(out@ =~= listing@.take(i + 1).filter(pred));
        }
        i = i + 1;
    }
    proof {
        assert(listing@.take(listing@.len() as int) =~= listing@);
    }
    out
}

/// What the selected entry of the browser is, with its full path.
pub enum SelectOutcome {
    /// Nothing is selected (the directory is empty).
    NoEntry,
    /// The selected entry is a plain file at this path.
    File(String),
    /// The selected entry is a directory at this path.
    Dir(String),
}

/// The file browser overlay's state: the directory being shown and the
/// selectable table of its visible entries.
pub struct FileNavigator {
    pub root: String,
    pub file_table: Datatable<FileEntry>,
}

impl FileNavigator {
    /// The entries on display.
    pub open spec fn spec_entries(&self) -> Seq<FileEntry> {
        self.file_table.data.entries@
    }

    /// The selected entry index, if any.
    pub open spec fn spec_selected(&self) -> Option<usize> {
        self.file_table.state.selected
    }

    /// The selection stays inside the listing.
    pub open spec fn wf(&self) -> bool {
        self.file_table.wf()
    }

    /// What a freshly adopted listing must look like: dotfiles are gone and
    /// the first entry is selected when there is one.
    pub open spec fn shows_listing(&self, root: Seq<char>, listing: Seq<FileEntry>) -> bool {
        &&& self.root@ == root
        &&& self.spec_entries() == listing.filter(|e: FileEntry| visible_entry(e))
        &&& self.spec_selected() == (if self.spec_entries().len() > 0 {
            Some(0usize)
        } else {
            None::<usize>
        })
    }

    /// A browser showing the given listing of `root`.
    pub fn new(root: String, listing: Vec<FileEntry>) -> (r: Self)
        ensures
            r.wf(),
            r.shows_listing(root@, listing@),
    {
        let entries = visible_entries(listing);
        let empty = entries.len() == 0;
        let mut file_table = Datatable::new(entries);
        if !empty {
            file_table.state.select(Some(0));
        }
        FileNavigator { root, file_table }
    }

    /// Move the selection one entry down, wrapping.
    pub fn next(&mut self)
        requires
            old(self).wf(),
        ensures
            final(self).wf(),
            final(self).root == old(self).root,
            final(self).spec_entries() == old(self).spec_entries(),
            final(self).spec_selected() == next_sel(
                old(self).spec_entries().len(),
                old(self).spec_selected(),
            ),
    {
        self.file_table.next();
    }

    /// Move the selection one entry up, wrapping.
    pub fn previous(&mut self)
        requires
            old(self).wf(),
        ensures
            final(self).wf(),
            final(self).root == old(self).root,
            final(self).spec_entries() == old(self).spec_entries(),
            final(self).spec_selected() == prev_sel(
                old(self).spec_entries().len(),
                old(self).spec_selected(),
            ),
    {
        self.file_table.previous();
    }

    /// The directory above the one on display, to be listed and adopted
    /// next; `None` at the filesystem root.
    pub fn select_parent(&self) -> (r: Option<String>)
        ensures
            match r {
                Some(p) => parent_spec(self.root@) == Some(p@),
                None => parent_spec(self.root@) is None,
            },
    {
        parent_of(self.root.as_str())
    }

    /// What the selected entry is. A directory is to be listed and adopted
    /// by the caller; a file's path is handed back for use as a payload
    /// source, leaving the browser untouched.
    pub fn select(&self) -> (r: SelectOutcome)
        requires
            self.wf(),
        ensures
            match self.spec_selected() {
                None => r is NoEntry,
                Some(i) => {
                    let e = self.spec_entries()[i as int];
                    let p = join_spec(self.root@, e.name@);
                    if e.is_dir {
                        r matches SelectOutcome::Dir(d) && d@ == p
                    } else {
                        r matches SelectOutcome::File(f) && f@ == p
                    }
                },
            },
    {
        match self.file_table.state.selected() {
            None => SelectOutcome::NoEntry,
            Some(i) => {
                let e = &self.file_table.data.entries[i];
                let full = join_path(self.root.as_str(), e.name.as_str());
                if e.is_dir {
                    SelectOutcome::Dir(full)
                } else {
                    SelectOutcome::File(full)
                }
            },
        }
    }

    /// Adopt a fresh listing of `root`: dotfiles are dropped and the
    /// selection is reset to the first visible entry, or cleared when the
    /// directory shows nothing.
    pub fn adopt_listing(&mut self, root: String, listing: Vec<FileEntry>)
        ensures
            final(self).wf(),
            final(self).shows_listing(root@, listing@),
    {
        let fresh = FileNavigator::new(root, listing);
        *self = fresh;
    }
}

} // verus!
