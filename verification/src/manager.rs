use crate::keys::Key;
use crate::models::{ExchangeInfo, Overview, QueueInfo};
use crate::panes::{
    exchange_step, overview_pushed, overview_step, queues_step, Action, ExchangePane,
    OverviewPane, QueuesPane,
};
use crate::rotate::{next_index, prev_index};
use crate::tabs::TabsState;
use vstd::prelude::*;

verus! {

/// One tab's content. The dashboard's views are a closed set, so dispatch is
/// a pattern match: the 1:1 correspondence between tabs and panes is
/// structural, and indexing can never reach a pane without a tab or a tab
/// without a pane.
pub enum Pane {
    Overview(OverviewPane),
    Exchanges(ExchangePane),
    Queues(QueuesPane),
}

/// Whatever fresh data the background fetchers delivered for this tick:
/// for each pane, at most the newest pending result. `None` means nothing
/// new arrived and the pane keeps displaying what it has.
pub struct TickData {
    pub overview: Option<Overview>,
    pub exchanges: Option<Vec<ExchangeInfo>>,
    pub queues: Option<Vec<QueueInfo>>,
}

impl Pane {
    /// The inner pane is well-formed.
    pub open spec fn wf(&self) -> bool {
        match self {
            Pane::Overview(p) => p.wf(),
            Pane::Exchanges(p) => p.wf(),
            Pane::Queues(p) => p.wf(),
        }
    }

    /// The inner pane can take one more tick without overflowing a counter.
    pub open spec fn can_tick(&self) -> bool {
        match self {
            Pane::Overview(p) => p.can_tick(),
            Pane::Exchanges(_) => true,
            Pane::Queues(_) => true,
        }
    }

    /// Runtime test of [`Pane::can_tick`].
    pub fn can_take_tick(&self) -> (r: bool)
        ensures
            r == self.can_tick(),
    {
        match self {
            Pane::Overview(p) => p.can_take_tick(),
            Pane::Exchanges(_) => true,
            Pane::Queues(_) => true,
        }
    }

    /// Route one key press to the inner pane.
    pub fn handle_key(&mut self, key: Key) -> (r: Action)
        requires
            old(self).wf(),
        ensures
            final(self).wf(),
            pane_step(*old(self), key, *final(self), r),
    {
        match self {
            Pane::Overview(p) => p.handle_key(key),
            Pane::Exchanges(p) => p.handle_key(key),
            Pane::Queues(p) => p.handle_key(key),
        }
    }

    /// Let the inner pane adopt whatever this tick's fetches brought for it.
    pub fn update(&mut self, tick: &mut TickData)
        requires
            old(self).wf(),
            old(self).can_tick(),
        ensures
            final(self).wf(),
            pane_updated(*old(self), *old(tick), *final(self)),
            tick_leftover(*old(self), *old(tick), *final(tick)),
    {
        match self {
            Pane::Overview(p) => {
                let fetched = tick.overview.take();
                p.update(fetched);
            },
            Pane::Exchanges(p) => {
                match tick.exchanges.take() {
                    Some(d) => p.update(d),
                    None => {},
                }
            },
            Pane::Queues(p) => {
                let fetched = tick.queues.take();
                p.update(fetched);
            },
        }
    }
}

/// The key transition of whichever pane is inside: the variant never changes
/// under a key press.
pub open spec fn pane_step(pre: Pane, key: Key, post: Pane, action: Action) -> bool {
    match pre {
        Pane::Overview(a) => post matches Pane::Overview(b) && action is Noop && overview_step(
            a,
            key,
            b,
        ),
        Pane::Exchanges(a) => post matches Pane::Exchanges(b) && action is Noop && exchange_step(
            a,
            key,
            b,
        ),
        Pane::Queues(a) => post matches Pane::Queues(b) && queues_step(a, key, b, action),
    }
}

/// The tick transition of whichever pane is inside: fresh data is adopted,
/// missing data leaves the pane as it was.
pub open spec fn pane_updated(pre: Pane, tick: TickData, post: Pane) -> bool {
    match pre {
        Pane::Overview(a) => post matches Pane::Overview(b) && (match tick.overview {
            None => b == a,
            Some(o) => {
                &&& b.counter == a.counter + 1
                &&& b.should_show_help == a.should_show_help
                &&& overview_pushed(a.data, o, b.data)
            },
        }),
        Pane::Exchanges(a) => post matches Pane::Exchanges(b) && (match tick.exchanges {
            None => b == a,
            Some(d) => {
                &&& b.table.data.entries == d
                &&& b.table.state.selected == (match a.table.state.selected {
                    Some(i) => if i < d@.len() {
                        Some(i)
                    } else {
                        None
                    },
                    None => None::<usize>,
                })
                &&& b.bindings_table == a.bindings_table
                &&& b.should_fetch_bindings == a.should_fetch_bindings
                &&& b.should_draw_popout == a.should_draw_popout
                &&& b.should_show_help == a.should_show_help
            },
        }),
        Pane::Queues(a) => post matches Pane::Queues(b) && (match tick.queues {
            None => b == a,
            Some(d) => {
                &&& b.table.data.entries == d
                &&& b.table.state.selected == (match a.table.state.selected {
                    Some(i) => if i < d@.len() {
                        Some(i)
                    } else {
                        None
                    },
                    None => None::<usize>,
                })
                &&& b.confirmation == a.confirmation
                &&& b.explorer == a.explorer
                &&& b.overlay == a.overlay
                &&& b.notif == a.notif
            },
        }),
    }
}

/// A pane's update consumes exactly its own slot of the tick data.
pub open spec fn tick_leftover(pre: Pane, tick: TickData, left: TickData) -> bool {
    match pre {
        Pane::Overview(_) => left == (TickData { overview: None, ..tick }),
        Pane::Exchanges(_) => left == (TickData { exchanges: None, ..tick }),
        Pane::Queues(_) => left == (TickData { queues: None, ..tick }),
    }
}

/// Two panes show the same kind of view.
pub open spec fn same_kind(a: Pane, b: Pane) -> bool {
    match a {
        Pane::Overview(_) => b is Overview,
        Pane::Exchanges(_) => b is Exchanges,
        Pane::Queues(_) => b is Queues,
    }
}

/// Each view kind appears on at most one tab, as the dashboard builds them:
/// each pane then owns its slot of the tick data alone.
pub open spec fn distinct_kinds(panes: Seq<Pane>) -> bool {
    forall|i: int, j: int|
        0 <= i < j < panes.len() ==> !same_kind(#[trigger] panes[i], #[trigger] panes[j])
}

/// The middleman between the app and its panes: an ordered, fixed set of
/// (title, pane) bindings and the active index. Construction takes the
/// bindings as one paired list, so titles and panes cannot drift apart, and
/// every index lookup stays in bounds.
pub struct TabsManager {
    pub tabs: TabsState,
    pub panes: Vec<Pane>,
}

impl TabsManager {
    /// As many panes as titles, a valid active index, and each pane sound.
    pub open spec fn wf(&self) -> bool {
        &&& self.tabs.wf()
        &&& self.panes@.len() == self.tabs.titles@.len()
        &&& forall|i: int| 0 <= i < self.panes@.len() ==> (#[trigger] self.panes@[i]).wf()
    }

    /// Every pane can take one more tick.
    pub open spec fn can_tick(&self) -> bool {
        forall|i: int| 0 <= i < self.panes@.len() ==> (#[trigger] self.panes@[i]).can_tick()
    }

    /// A manager over paired titles and panes, starting on the first tab.
    pub fn new(bindings: Vec<(String, Pane)>) -> (r: Self)
        requires
            bindings@.len() > 0,
            forall|i: int| 0 <= i < bindings@.len() ==> (#[trigger] bindings@[i]).1.wf(),
        ensures
            r.wf(),
            r.tabs.index == 0,
            r.tabs.titles@.len() == bindings@.len(),
            forall|i: int|
                0 <= i < bindings@.len() ==> (#[trigger] r.tabs.titles@[i]) == bindings@[i].0,
            forall|i: int|
                0 <= i < bindings@.len() ==> (#[trigger] r.panes@[i]) == bindings@[i].1,
    {
        let ghost orig = bindings@;
        let mut bindings = bindings;
        let mut titles: Vec<String> = Vec::new();
        let mut panes: Vec<Pane> = Vec::new();
        while bindings.len() > 0
            invariant
                titles@.len() == panes@.len(),
                titles@.len() + bindings@.len() == orig.len(),
                bindings@ == orig.skip(titles@.len() as int),
                forall|i: int|
                    0 <= i < titles@.len() ==> (#[trigger] titles@[i]) == orig[i].0
                        && panes@[i] == orig[i].1,
            decreases bindings@.len(),
        {
            let pair = bindings.remove(0);
            proof {
                assert(orig.skip(titles@.len() as int)[0] == orig[titles@.len() as int]);
                assert(orig.skip(titles@.len() as int).remove(0) =~= orig.skip(
                    titles@.len() + 1int,
                ));
            }
            titles.push(pair.0);
            panes.push(pair.1);
        }
        proof {
            assert(titles@.len() == orig.len());
            assert(panes@.len() == orig.len());
            assert forall|i: int| 0 <= i < orig.len() implies (#[trigger] titles@[i]) == orig[i].0 by {
                assert(titles@[i] == orig[i].0 && panes@[i] == orig[i].1);
            }
            assert forall|i: int| 0 <= i < orig.len() implies (#[trigger] panes@[i]) == orig[i].1 by {
                assert(titles@[i] == orig[i].0 && panes@[i] == orig[i].1);
            }
            assert forall|i: int| 0 <= i < panes@.len() implies (#[trigger] panes@[i]).wf() by {
                assert(titles@[i] == orig[i].0 && panes@[i] == orig[i].1);
                assert(orig[i].1.wf());
            }
        }
        TabsManager { tabs: TabsState::new(titles), panes }
    }

    /// The active index; the tab title and the pane at that index belong
    /// together.
    pub fn curr(&self) -> (r: usize)
        ensures
            r == self.tabs.index,
    {
        self.tabs.index
    }

    /// The titles given at construction, in tab order.
    pub fn titles(&self) -> (r: &Vec<String>)
        ensures
            *r == self.tabs.titles,
    {
        &self.tabs.titles
    }

    /// Progress to the next tab, wrapping past the upper bound.
    pub fn next(&mut self)
        requires
            old(self).wf(),
        ensures
            final(self).wf(),
            final(self).panes == old(self).panes,
            final(self).tabs.titles == old(self).tabs.titles,
            final(self).tabs.index == next_index(
                old(self).tabs.titles@.len(),
                old(self).tabs.index as nat,
            ),
    {
        self.tabs.next();
    }

    /// Go to the previous tab, wrapping past the lower bound.
    pub fn prev(&mut self)
        requires
            old(self).wf(),
        ensures
            final(self).wf(),
            final(self).panes == old(self).panes,
            final(self).tabs.titles == old(self).tabs.titles,
            final(self).tabs.index == prev_index(
                old(self).tabs.titles@.len(),
                old(self).tabs.index as nat,
            ),
    {
        self.tabs.previous();
    }

    /// Borrow the currently active pane mutably.
    pub fn pane(&mut self) -> (r: &mut Pane)
        requires
            old(self).wf(),
        ensures
            *r == old(self).panes@[old(self).tabs.index as int],
            final(self).tabs == old(self).tabs,
            final(self).panes@ == old(self).panes@.update(
                old(self).tabs.index as int,
                *final(r),
            ),
    {
        let i = self.tabs.index;
        &mut self.panes[i]
    }

    /// Route a key press to the active pane only.
    pub fn handle_key(&mut self, key: Key) -> (r: Action)
        requires
            old(self).wf(),
        ensures
            final(self).wf(),
            final(self).tabs == old(self).tabs,
            final(self).panes@.len() == old(self).panes@.len(),
            pane_step(
                old(self).panes@[old(self).tabs.index as int],
                key,
                final(self).panes@[old(self).tabs.index as int],
                r,
            ),
            forall|i: int|
                0 <= i < old(self).panes@.len() && i != old(self).tabs.index
                    ==> final(self).panes@[i] == #[trigger] old(self).panes@[i],
    {
        let i = self.tabs.index;
        let p = &mut self.panes[i];
        p.handle_key(key)
    }

    /// Let every pane adopt what this tick's fetches brought it. Each slot
    /// of the tick data is consumed by the pane it belongs to.
    pub fn update(&mut self, tick: TickData)
        requires
            old(self).wf(),
            old(self).can_tick(),
            distinct_kinds(old(self).panes@),
        ensures
            final(self).wf(),
            final(self).tabs == old(self).tabs,
            final(self).panes@.len() == old(self).panes@.len(),
            forall|i: int|
                0 <= i < old(self).panes@.len() ==> pane_updated(
                    #[trigger] old(self).panes@[i],
                    tick,
                    final(self).panes@[i],
                ),
    {
        let ghost orig = self.panes@;
        let ghost tick0 = tick;
        let mut tick = tick;
        let mut k: usize = 0;
        while k < self.panes.len()
            invariant
                k <= self.panes@.len() == orig.len(),
                self.tabs == old(self).tabs,
                forall|i: int| 0 <= i < orig.len() ==> (#[trigger] self.panes@[i]).wf(),
                forall|i: int| k <= i < orig.len() ==> (#[trigger] self.panes@[i]) == orig[i],
                forall|i: int| k <= i < orig.len() ==> (#[trigger] self.panes@[i]).can_tick(),
                forall|i: int|
                    0 <= i < k ==> pane_updated(#[trigger] orig[i], tick0, self.panes@[i]),
                distinct_kinds(orig),
                tick.overview == (if exists|j: int|
                    0 <= j < k && (#[trigger] orig[j]) is Overview {
                    None
                } else {
                    tick0.overview
                }),
                tick.exchanges == (if exists|j: int|
                    0 <= j < k && (#[trigger] orig[j]) is Exchanges {
                    None::<Vec<ExchangeInfo>>
                } else {
                    tick0.exchanges
                }),
                tick.queues == (if exists|j: int|
                    0 <= j < k && (#[trigger] orig[j]) is Queues {
                    None::<Vec<QueueInfo>>
                } else {
                    tick0.queues
                }),
            decreases self.panes@.len() - k,
        {
            let ghost pre_pane = self.panes@[k as int];
            let ghost pre_tick = tick;
            let p = &mut self.panes[k];
            p.update(&mut tick);
            proof {
                assert(pane_updated(pre_pane, pre_tick, self.panes@[k as int]));
                // No earlier pane shares this pane's kind, so its slot of the
                // tick data was still untouched when it drained it.
                match pre_pane {
                    Pane::Overview(_) => {
                        assert(forall|j: int|
                            0 <= j < k ==> !((#[trigger] orig[j]) is Overview)) by {
                            assert(forall|j: int|
                                0 <= j < k ==> !same_kind(#[trigger] orig[j], orig[k as int]));
                        };
                        assert(pre_tick.overview == tick0.overview);
                    },
                    Pane::Exchanges(_) => {
                        assert(forall|j: int|
                            0 <= j < k ==> !((#[trigger] orig[j]) is Exchanges)) by {
                            assert(forall|j: int|
                                0 <= j < k ==> !same_kind(#[trigger] orig[j], orig[k as int]));
                        };
                        assert(pre_tick.exchanges == tick0.exchanges);
                    },
                    Pane::Queues(_) => {
                        assert(forall|j: int| 0 <= j < k ==> !((#[trigger] orig[j]) is Queues)) by {
                            assert(forall|j: int|
                                0 <= j < k ==> !same_kind(#[trigger] orig[j], orig[k as int]));
                        };
                        assert(pre_tick.queues == tick0.queues);
                    },
                }
                assert(pane_updated(orig[k as int], tick0, self.panes@[k as int]));
            }
            k = k + 1;
        }
    }
}

/// The top-level dashboard state: the tab manager and nothing else. The
/// shell's loop draws, then feeds exactly one external event — a key press
/// or a tick — into `handle_key` or `update` before drawing again.
pub struct App {
    pub manager: TabsManager,
}

/// The app's whole key transition: `l` and `h` switch tabs and reach no
/// pane; any other key goes to the active pane alone.
pub open spec fn app_step(pre: App, key: Key, post: App, action: Action) -> bool {
    if key matches Key::Char(c) && c == 'l' {
        &&& action is Noop
        &&& post.manager.panes == pre.manager.panes
        &&& post.manager.tabs.titles == pre.manager.tabs.titles
        &&& post.manager.tabs.index == next_index(
            pre.manager.tabs.titles@.len(),
            pre.manager.tabs.index as nat,
        )
    } else if key matches Key::Char(c) && c == 'h' {
        &&& action is Noop
        &&& post.manager.panes == pre.manager.panes
        &&& post.manager.tabs.titles == pre.manager.tabs.titles
        &&& post.manager.tabs.index == prev_index(
            pre.manager.tabs.titles@.len(),
            pre.manager.tabs.index as nat,
        )
    } else {
        &&& post.manager.tabs == pre.manager.tabs
        &&& post.manager.panes@.len() == pre.manager.panes@.len()
        &&& pane_step(
            pre.manager.panes@[pre.manager.tabs.index as int],
            key,
            post.manager.panes@[pre.manager.tabs.index as int],
            action,
        )
        &&& forall|i: int|
            0 <= i < pre.manager.panes@.len() && i != pre.manager.tabs.index
                ==> post.manager.panes@[i] == #[trigger] pre.manager.panes@[i]
    }
}

impl App {
    /// The manager is sound and no view kind sits on two tabs.
    pub open spec fn wf(&self) -> bool {
        &&& self.manager.wf()
        &&& distinct_kinds(self.manager.panes@)
    }

    /// Every pane can take one more tick.
    pub open spec fn can_tick(&self) -> bool {
        self.manager.can_tick()
    }

    /// Runtime test of [`App::can_tick`].
    pub fn can_take_tick(&self) -> (r: bool)
        ensures
            r == self.can_tick(),
    {
        let mut k: usize = 0;
        let mut ok = true;
        while k < self.manager.panes.len()
            invariant
                k <= self.manager.panes@.len(),
                ok == (forall|i: int|
                    0 <= i < k ==> (#[trigger] self.manager.panes@[i]).can_tick()),
            decreases self.manager.panes@.len() - k,
        {
            if !self.manager.panes[k].can_take_tick() {
                ok = false;
            }
            k = k + 1;
        }
        ok
    }

    /// An app over paired tab titles and panes.
    pub fn new(bindings: Vec<(String, Pane)>) -> (r: Self)
        requires
            bindings@.len() > 0,
            forall|i: int| 0 <= i < bindings@.len() ==> (#[trigger] bindings@[i]).1.wf(),
            forall|i: int, j: int|
                0 <= i < j < bindings@.len() ==> !same_kind(
                    (#[trigger] bindings@[i]).1,
                    (#[trigger] bindings@[j]).1,
                ),
        ensures
            r.wf(),
            r.manager.tabs.index == 0,
            r.manager.tabs.titles@.len() == bindings@.len(),
            forall|i: int|
                0 <= i < bindings@.len() ==> (#[trigger] r.manager.tabs.titles@[i])
                    == bindings@[i].0,
            forall|i: int|
                0 <= i < bindings@.len() ==> (#[trigger] r.manager.panes@[i]) == bindings@[i].1,
    {
        let ghost orig = bindings@;
        let manager = TabsManager::new(bindings);
        proof {
            assert(manager.tabs.titles@.len() == orig.len());
            assert(manager.panes@.len() == orig.len());
            assert forall|i: int, j: int|
                0 <= i < j < manager.panes@.len() implies !same_kind(
                #[trigger] manager.panes@[i],
                #[trigger] manager.panes@[j],
            ) by {
                assert(manager.panes@[i] == orig[i].1);
                assert(manager.panes@[j] == orig[j].1);
            }
        }
        App { manager }
    }

    /// Transform one key press into app behaviour: the tab-switching keys
    /// are reserved here, everything else is passed to the active pane.
    pub fn handle_key(&mut self, key: Key) -> (r: Action)
        requires
            old(self).wf(),
        ensures
            final(self).wf(),
            app_step(*old(self), key, *final(self), r),
    {
        match key {
            Key::Char(c) => {
                if c == 'l' {
                    self.manager.next();
                    Action::Noop
                } else if c == 'h' {
                    self.manager.prev();
                    Action::Noop
                } else {
                    let r = self.manager.handle_key(key);
                    proof {
                        lemma_distinct_kinds_update(
                            old(self).manager.panes@,
                            self.manager.panes@,
                            old(self).manager.tabs.index as int,
                        );
                    }
                    r
                }
            },
            _ => {
                let r = self.manager.handle_key(key);
                proof {
                    lemma_distinct_kinds_update(
                        old(self).manager.panes@,
                        self.manager.panes@,
                        old(self).manager.tabs.index as int,
                    );
                }
                r
            },
        }
    }

    /// Handle one tick: every pane adopts what the background fetchers
    /// brought it.
    pub fn update(&mut self, tick: TickData)
        requires
            old(self).wf(),
            old(self).can_tick(),
        ensures
            final(self).wf(),
            final(self).manager.tabs == old(self).manager.tabs,
            final(self).manager.panes@.len() == old(self).manager.panes@.len(),
            forall|i: int|
                0 <= i < old(self).manager.panes@.len() ==> pane_updated(
                    #[trigger] old(self).manager.panes@[i],
                    tick,
                    final(self).manager.panes@[i],
                ),
    {
        self.manager.update(tick);
        proof {
            assert forall|i: int, j: int|
                0 <= i < j < self.manager.panes@.len() implies !same_kind(
                #[trigger] self.manager.panes@[i],
                #[trigger] self.manager.panes@[j],
            ) by {
                assert(pane_updated(
                    old(self).manager.panes@[i],
                    tick,
                    self.manager.panes@[i],
                ));
                assert(pane_updated(
                    old(self).manager.panes@[j],
                    tick,
                    self.manager.panes@[j],
                ));
                assert(!same_kind(old(self).manager.panes@[i], old(self).manager.panes@[j]));
            }
        }
    }
}

/// A key press changes at most one pane and never its kind, so kind
/// distinctness survives.
proof fn lemma_distinct_kinds_update(pre: Seq<Pane>, post: Seq<Pane>, at: int)
    requires
        pre.len() == post.len(),
        0 <= at < pre.len(),
        distinct_kinds(pre),
        same_kind(pre[at], post[at]),
        forall|i: int| 0 <= i < pre.len() && i != at ==> post[i] == #[trigger] pre[i],
    ensures
        distinct_kinds(post),
{
    assert forall|i: int, j: int| 0 <= i < j < post.len() implies !same_kind(
        #[trigger] post[i],
        #[trigger] post[j],
    ) by {
        assert(!same_kind(pre[i], pre[j]));
    }
}

} // verus!
