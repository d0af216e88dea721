use vstd::prelude::*;

verus! {

/// The default number of samples a chart keeps, matching the width of the
/// visible x window.
pub const X_WINDOW: usize = 100;

/// One step of the sliding window: append the sample `(c, y)` and, when that
/// exceeds the capacity, evict the oldest sample.
pub open spec fn push_step(s: Seq<(u64, u64)>, c: u64, cap: nat, y: u64) -> Seq<(u64, u64)> {
    let grown = s.push((c, y));
    if grown.len() > cap {
        grown.drop_first()
    } else {
        grown
    }
}

/// The samples a window holds after pushing every value of `ys` in order,
/// starting from samples `s` and tick counter `c`.
pub open spec fn window_after(s: Seq<(u64, u64)>, c: u64, cap: nat, ys: Seq<u64>) -> Seq<
    (u64, u64),
>
    decreases ys.len(),
{
    if ys.len() == 0 {
        s
    } else {
        window_after(push_step(s, c, cap, ys.first()), (c + 1) as u64, cap, ys.drop_first())
    }
}

/// The samples `ys` paired with consecutive ticks starting at `c`.
pub open spec fn ticked(c: u64, ys: Seq<u64>) -> Seq<(u64, u64)> {
    Seq::new(ys.len(), |i: int| ((c + i) as u64, ys[i]))
}

/// Sliding-window buffer of `(tick, value)` samples feeding a chart. Holds at
/// most `capacity` samples, evicting the oldest; tick indices increase by one
/// per push, so the window always covers the most recent ticks.
pub struct ChartData {
    data: Vec<(u64, u64)>,
    counter: u64,
    capacity: usize,
}

impl ChartData {
    /// The samples, oldest first.
    pub closed spec fn samples(&self) -> Seq<(u64, u64)> {
        self.data@
    }

    /// The tick index the next push will carry.
    pub closed spec fn spec_counter(&self) -> u64 {
        self.counter
    }

    /// The fixed capacity.
    pub closed spec fn spec_capacity(&self) -> nat {
        self.capacity as nat
    }

    /// Well-formed: never over capacity, and the samples carry the
    /// consecutive run of ticks ending just before `counter`.
    pub closed spec fn wf(&self) -> bool {
        &&& 0 < self.capacity
        &&& self.data@.len() <= self.capacity
        &&& self.data@.len() <= self.counter
        &&& forall|i: int|
            0 <= i < self.data@.len() ==> (#[trigger] self.data@[i]).0 == self.counter - self.data@.len()
                + i
    }

    /// An empty window with the given capacity.
    pub fn new(capacity: usize) -> (r: Self)
        requires
            capacity > 0,
        ensures
            r.wf(),
            r.samples() == Seq::<(u64, u64)>::empty(),
            r.spec_counter() == 0,
            r.spec_capacity() == capacity,
    {
        ChartData { data: Vec::new(), counter: 0, capacity }
    }

    /// Append `(counter, n)`, advance the counter, and evict the oldest
    /// sample if the buffer has outgrown its capacity.
    pub fn push(&mut self, n: u64)
        requires
            old(self).wf(),
            old(self).spec_counter() < u64::MAX,
        ensures
            final(self).wf(),
            final(self).spec_capacity() == old(self).spec_capacity(),
            final(self).spec_counter() == old(self).spec_counter() + 1,
            final(self).samples() == push_step(
                old(self).samples(),
                old(self).spec_counter(),
                old(self).spec_capacity(),
                n,
            ),
    {
        self.data.push((self.counter, n));
        self.counter = self.counter + 1;
        if self.data.len() > self.capacity {
            self.data.remove(0);
            proof {
                assert(self.data@ =~= old(self).data@.push(
                    (old(self).counter, n),
                ).drop_first());
            }
        }
    }

    /// Number of samples currently held.
    pub fn len(&self) -> (r: usize)
        ensures
            r == self.samples().len(),
    {
        self.data.len()
    }

    /// Borrow the samples for drawing.
    pub fn data(&self) -> (r: &Vec<(u64, u64)>)
        ensures
            r@ == self.samples(),
    {
        &self.data
    }

    /// The sample at a position, oldest first.
    pub fn sample_at(&self, i: usize) -> (r: (u64, u64))
        requires
            i < self.samples().len(),
        ensures
            r == self.samples()[i as int],
    {
        self.data[i]
    }

    /// Upper bound of the visible x window. The ticks only increase and the
    /// most recent sample's tick is `counter - 1`, so no iteration is needed.
    pub fn x_max(&self) -> (r: u64)
        ensures
            r == self.spec_counter(),
    {
        self.counter
    }

    /// The visible sliding x window `[max(0, counter - capacity), counter]`,
    /// not the full history.
    pub fn x_bounds(&self) -> (r: (u64, u64))
        ensures
            r.0 == if self.spec_counter() >= self.spec_capacity() {
                self.spec_counter() - self.spec_capacity()
            } else {
                0
            },
            r.1 == self.spec_counter(),
    {
        let lb: u64 = if self.counter as u128 >= self.capacity as u128 {
            self.counter - self.capacity as u64
        } else {
            0
        };
        (lb, self.counter)
    }

    /// Largest sampled value. The window must be seeded with at least one
    /// sample before any axis scaling is asked of it.
    pub fn y_max(&self) -> (r: u64)
        requires
            self.samples().len() > 0,
        ensures
            forall|i: int| 0 <= i < self.samples().len() ==> (#[trigger] self.samples()[i]).1 <= r,
            exists|i: int| 0 <= i < self.samples().len() && (#[trigger] self.samples()[i]).1 == r,
    {
        let mut best: u64 = self.data[0].1;
        let mut k: usize = 1;
        while k < self.data.len()
            invariant
                1 <= k <= self.data@.len(),
                forall|i: int| 0 <= i < k ==> (#[trigger] self.data@[i]).1 <= best,
                exists|i: int| 0 <= i < k && (#[trigger] self.data@[i]).1 == best,
            decreases self.data@.len() - k,
        {
            if self.data[k].1 > best {
                best = self.data[k].1;
            }
            k = k + 1;
        }
        best
    }

    /// Smallest sampled value. The window must be seeded with at least one
    /// sample before any axis scaling is asked of it.
    pub fn y_min(&self) -> (r: u64)
        requires
            self.samples().len() > 0,
        ensures
            forall|i: int| 0 <= i < self.samples().len() ==> r <= (#[trigger] self.samples()[i]).1,
            exists|i: int| 0 <= i < self.samples().len() && (#[trigger] self.samples()[i]).1 == r,
    {
        let mut best: u64 = self.data[0].1;
        let mut k: usize = 1;
        while k < self.data.len()
            invariant
                1 <= k <= self.data@.len(),
                forall|i: int| 0 <= i < k ==> best <= (#[trigger] self.data@[i]).1,
                exists|i: int| 0 <= i < k && (#[trigger] self.data@[i]).1 == best,
            decreases self.data@.len() - k,
        {
            if self.data[k].1 < best {
                best = self.data[k].1;
            }
            k = k + 1;
        }
        best
    }

    /// The most recently pushed value. The window must be seeded with at
    /// least one sample at construction so this never meets an empty buffer.
    pub fn last_value(&self) -> (r: u64)
        requires
            self.samples().len() > 0,
        ensures
            r == self.samples().last().1,
    {
        self.data[self.data.len() - 1].1
    }
}

impl Default for ChartData {
    /// An empty window with the default chart capacity.
    fn default() -> (r: Self)
        ensures
            r.wf(),
            r.samples() == Seq::<(u64, u64)>::empty(),
            r.spec_counter() == 0,
            r.spec_capacity() == X_WINDOW as nat,
    {
        ChartData::new(X_WINDOW)
    }
}

/// After pushing the values `ys`, the window holds exactly the last
/// `capacity` entries of the full history `s + ticked(c, ys)` (all of it, if
/// the history is still within capacity). In particular `capacity + k` pushes
/// into a fresh window leave exactly `capacity` samples: the `k` most recent
/// pushes preceded by the `capacity - k` pushes just before them, ticks
/// increasing by one.
pub proof fn lemma_window_after(s: Seq<(u64, u64)>, c: u64, cap: nat, ys: Seq<u64>)
    requires
        0 < cap,
        s.len() <= cap,
        c + ys.len() <= u64::MAX,
    ensures
        window_after(s, c, cap, ys) == {
            let full = s + ticked(c, ys);
            if full.len() <= cap {
                full
            } else {
                full.skip(full.len() - cap)
            }
        },
    decreases ys.len(),
{
    let full = s + ticked(c, ys);
    if ys.len() == 0 {
        assert(full =~= s);
    } else {
        let s1 = push_step(s, c, cap, ys.first());
        lemma_window_after(s1, (c + 1) as u64, cap, ys.drop_first());
        let full1 = s1 + ticked((c + 1) as u64, ys.drop_first());
        if s.len() + 1 <= cap {
            assert(full1 =~= full);
        } else {
            // the first sample of `s` is evicted immediately
            assert(full1 =~= full.skip(1));
            let tail = full.skip(1);
            if tail.len() > cap {
                assert(tail.skip(tail.len() - cap) =~= full.skip(full.len() - cap));
            } else {
                assert(tail =~= full.skip(full.len() - cap));
            }
        }
    }
}

/// Overfilling a fresh window: after more pushes than the capacity, exactly
/// `capacity` samples remain — the most recent pushes, each paired with its
/// tick, ticks increasing by one. Pushing `capacity + k` values thus keeps
/// the `k` newest together with the `capacity - k` immediately preceding
/// ones.
pub proof fn lemma_fresh_window_contents(cap: nat, ys: Seq<u64>)
    requires
        0 < cap < ys.len() <= u64::MAX,
    ensures
        window_after(Seq::empty(), 0, cap, ys).len() == cap,
        forall|j: int|
            0 <= j < cap ==> window_after(Seq::empty(), 0, cap, ys)[j] == ((
                (ys.len() - cap + j) as u64,
                ys[ys.len() - cap + j],
            )),
{
    lemma_window_after(Seq::empty(), 0, cap, ys);
    let full = Seq::empty() + ticked(0, ys);
    assert(full =~= ticked(0, ys));
    let w = window_after(Seq::empty(), 0, cap, ys);
    assert(w == full.skip(full.len() - cap));
    assert forall|j: int| 0 <= j < cap implies w[j] == ((
        (ys.len() - cap + j) as u64,
        ys[ys.len() - cap + j],
    )) by {
        assert(w[j] == full[full.len() - cap + j]);
    }
}

} // verus!
