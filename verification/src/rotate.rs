use vstd::arithmetic::div_mod::{
    lemma_add_mod_noop, lemma_add_mod_noop_right, lemma_mod_self_0, lemma_small_mod,
};
use vstd::prelude::*;

verus! {

// Wraparound navigation over an index range `0..len`, shared by selectable
// tables, the tab bar and the confirmation dialog. The selection is an
// `Option<usize>`: `None` means nothing is selected yet.

/// One step forward. On an empty range the selection is untouched; from
/// `None` the first index is selected; otherwise the index advances and
/// wraps from `len - 1` back to `0`.
pub open spec fn next_sel(len: nat, sel: Option<usize>) -> Option<usize> {
    if len == 0 {
        sel
    } else {
        match sel {
            None => Some(0usize),
            Some(i) => Some((((i + 1) as nat % len) as usize)),
        }
    }
}

/// One step backward. On an empty range the selection is untouched; from
/// `None` the first index is selected; otherwise the index retreats and
/// wraps from `0` to `len - 1`.
pub open spec fn prev_sel(len: nat, sel: Option<usize>) -> Option<usize> {
    if len == 0 {
        sel
    } else {
        match sel {
            None => Some(0usize),
            Some(i) => Some(
                if i == 0 {
                    (len - 1) as usize
                } else {
                    (i - 1) as usize
                },
            ),
        }
    }
}

/// A selection is valid when it points inside the range (and hence is `None`
/// on an empty range).
pub open spec fn sel_in_range(len: nat, sel: Option<usize>) -> bool {
    sel matches Some(i) ==> i < len
}

/// `next_sel` applied `k` times.
pub open spec fn iter_next_sel(len: nat, sel: Option<usize>, k: nat) -> Option<usize>
    decreases k,
{
    if k == 0 {
        sel
    } else {
        next_sel(len, iter_next_sel(len, sel, (k - 1) as nat))
    }
}

/// Stepping forward `k` times from index `i` lands on `(i + k) % len`.
pub proof fn lemma_iter_next_sel(len: nat, i: usize, k: nat)
    requires
        0 < len <= usize::MAX,
        i < len,
    ensures
        iter_next_sel(len, Some(i), k) == Some((((i + k) as nat % len) as usize)),
    decreases k,
{
    if k == 0 {
        lemma_small_mod(i as nat, len);
    } else {
        lemma_iter_next_sel(len, i, (k - 1) as nat);
        let a = (i + k - 1) as nat;
        let j = (a % len) as usize;
        assert(j as int == a % len) by {
            lemma_mod_self_0(len as int);
            lemma_small_mod(a % len, len);
        };
        // (j + 1) % len == (a + 1) % len == (i + k) % len
        lemma_add_mod_noop_right(1int, a as int, len as int);
    }
}

/// Wraparound closure: stepping forward `len` times returns to the original
/// selection. This is the general form of the "N calls of `next` on a list of
/// length N come back around" property.
pub proof fn lemma_next_sel_cycle(len: nat, i: usize)
    requires
        0 < len <= usize::MAX,
        i < len,
    ensures
        iter_next_sel(len, Some(i), len) == Some(i),
{
    lemma_iter_next_sel(len, i, len);
    // (i + len) % len == i % len == i
    lemma_mod_self_0(len as int);
    lemma_add_mod_noop_right(i as int, len as int, len as int);
    lemma_small_mod(i as nat, len);
}

/// On a selected index, `prev_sel` undoes `next_sel`.
pub proof fn lemma_prev_next_sel(len: nat, i: usize)
    requires
        len <= usize::MAX,
        i < len,
    ensures
        prev_sel(len, next_sel(len, Some(i))) == Some(i),
{
    lemma_mod_self_0(len as int);
    if i + 1 < len {
        lemma_small_mod((i + 1) as nat, len);
    }
}

/// On a selected index, `next_sel` undoes `prev_sel`.
pub proof fn lemma_next_prev_sel(len: nat, i: usize)
    requires
        len <= usize::MAX,
        i < len,
    ensures
        next_sel(len, prev_sel(len, Some(i))) == Some(i),
{
    lemma_mod_self_0(len as int);
    if i > 0 {
        lemma_small_mod(i as nat, len);
    }
}

// The same wraparound arithmetic for an always-selected index, as the tab
// bar uses: there `None` does not arise and `previous` is written with a
// branch instead of a modulus.

/// One tab forward.
pub open spec fn next_index(len: nat, i: nat) -> nat
    recommends
        0 < len,
{
    (i + 1) as nat % len
}

/// One tab backward.
pub open spec fn prev_index(len: nat, i: nat) -> nat {
    if i > 0 {
        (i - 1) as nat
    } else {
        (len - 1) as nat
    }
}

/// `next_index` applied `k` times.
pub open spec fn iter_next_index(len: nat, i: nat, k: nat) -> nat
    decreases k,
{
    if k == 0 {
        i
    } else {
        next_index(len, iter_next_index(len, i, (k - 1) as nat))
    }
}

/// Stepping the tab index forward `k` times lands on `(i + k) % len`.
pub proof fn lemma_iter_next_index(len: nat, i: nat, k: nat)
    requires
        0 < len,
        i < len,
    ensures
        iter_next_index(len, i, k) == (i + k) as nat % len,
    decreases k,
{
    if k == 0 {
        lemma_small_mod(i, len);
    } else {
        lemma_iter_next_index(len, i, (k - 1) as nat);
        let a = (i + k - 1) as nat;
        // (a % len + 1) % len == (a + 1) % len == (i + k) % len
        lemma_add_mod_noop_right(1int, a as int, len as int);
    }
}

/// Wraparound closure for the tab index.
pub proof fn lemma_next_index_cycle(len: nat, i: nat)
    requires
        0 < len,
        i < len,
    ensures
        iter_next_index(len, i, len) == i,
{
    lemma_iter_next_index(len, i, len);
    lemma_mod_self_0(len as int);
    lemma_add_mod_noop_right(i as int, len as int, len as int);
    lemma_small_mod(i, len);
}

/// `prev_index` undoes `next_index`.
pub proof fn lemma_prev_next_index(len: nat, i: nat)
    requires
        i < len,
    ensures
        prev_index(len, next_index(len, i)) == i,
{
    lemma_mod_self_0(len as int);
    if i + 1 < len {
        lemma_small_mod(i + 1, len);
    }
}

/// `next_index` undoes `prev_index`.
pub proof fn lemma_next_prev_index(len: nat, i: nat)
    requires
        i < len,
    ensures
        next_index(len, prev_index(len, i)) == i,
{
    lemma_mod_self_0(len as int);
    if i > 0 {
        lemma_small_mod(i, len);
    }
}

} // verus!
