use crate::chart::{push_step, ChartData};
use crate::confirmation::ConfirmationBox;
use crate::files::{join_spec, FileEntry, FileNavigator, SelectOutcome};
use crate::keys::Key;
use crate::models::{ExchangeBindings, ExchangeInfo, Overview, QueueInfo};
use crate::rotate::{next_sel, prev_sel};
use crate::table::Datatable;
use vstd::prelude::*;

verus! {

/// What a pane asks the shell to do after a key press. The shell performs
/// the I/O and, where a result matters, hands it back through the pane's
/// adoption methods.
#[derive(Debug)]
pub enum Action {
    /// Nothing to do.
    Noop,
    /// Publish the clipboard's contents to this queue.
    PublishFromClipboard { queue: String, vhost: String },
    /// Pop one message from this queue onto the clipboard; report back
    /// through `on_pop_result`.
    PopToClipboard { queue: String, vhost: String },
    /// Purge this queue.
    Purge { queue: String, vhost: String },
    /// List this directory and hand the listing back through
    /// `adopt_dir_listing`.
    ListDir { path: String },
    /// Read this file and publish its contents to the queue.
    PostFromFile { path: String, queue: String, vhost: String },
}

/// Which modal overlay owns a pane's input. At most one is active at a time;
/// they are checked in fixed priority order: confirmation, then the file
/// browser, then help.
#[derive(Debug, Clone, Copy, PartialEq, Eq, Structural)]
pub enum OverlayState {
    /// No overlay: keys go to the main table.
    Inactive,
    /// The help text is shown; only its toggle key is heeded.
    Help,
    /// The file browser owns navigation keys.
    FileBrowser,
    /// A destructive action is armed and awaits confirmation.
    Confirmation,
}

/// Which transient notification a pane shows, if any.
#[derive(Debug, Clone, Copy, PartialEq, Eq, Structural)]
pub enum NotifKind {
    /// The clipboard's contents were published.
    PastedFromClipboard,
    /// A popped message landed on the clipboard.
    CopiedToClipboard,
    /// There was no message to pop.
    NoMessageToCopy,
    /// The queue was purged.
    Purged,
    /// A file's contents were published.
    PostedFromFile,
}

impl NotifKind {
    /// The banner text for this notification.
    pub fn message(&self) -> (r: &'static str)
        ensures
            *self is PastedFromClipboard ==> r@ == "Pasted from clipboard!"@,
            *self is CopiedToClipboard ==> r@ == "Copied to clipboard!"@,
            *self is NoMessageToCopy ==> r@ == "No messages to copy!"@,
            *self is Purged ==> r@ == "Queue purged!"@,
            *self is PostedFromFile ==> r@ == "Posted from file!"@,
    {
        match self {
            NotifKind::PastedFromClipboard => "Pasted from clipboard!",
            NotifKind::CopiedToClipboard => "Copied to clipboard!",
            NotifKind::NoMessageToCopy => "No messages to copy!",
            NotifKind::Purged => "Queue purged!",
            NotifKind::PostedFromFile => "Posted from file!",
        }
    }
}

// ---------------------------------------------------------------------------
// Overview pane
// ---------------------------------------------------------------------------

/// The overview pane's chart buffers, one per plotted series.
pub struct OverviewData {
    pub overall: ChartData,
    pub ready: ChartData,
    pub unacked: ChartData,
    pub disk_read_rate: ChartData,
    pub disk_write_rate: ChartData,
}

/// The overview tab: cluster-wide totals and disk rates, charted over a
/// sliding window, refreshed from a background fetch.
pub struct OverviewPane {
    pub data: OverviewData,
    pub counter: u64,
    pub should_show_help: bool,
}

/// The chart buffers each gained one sample from `o`, at their previous
/// counters.
pub open spec fn overview_pushed(pre: OverviewData, o: Overview, post: OverviewData) -> bool {
    &&& post.overall.samples() == push_step(
        pre.overall.samples(),
        pre.overall.spec_counter(),
        pre.overall.spec_capacity(),
        o.queue_totals.messages,
    )
    &&& post.ready.samples() == push_step(
        pre.ready.samples(),
        pre.ready.spec_counter(),
        pre.ready.spec_capacity(),
        o.queue_totals.messages_ready,
    )
    &&& post.unacked.samples() == push_step(
        pre.unacked.samples(),
        pre.unacked.spec_counter(),
        pre.unacked.spec_capacity(),
        o.queue_totals.messages_unacked,
    )
    &&& post.disk_read_rate.samples() == push_step(
        pre.disk_read_rate.samples(),
        pre.disk_read_rate.spec_counter(),
        pre.disk_read_rate.spec_capacity(),
        o.message_stats.disk_reads_details.rate,
    )
    &&& post.disk_write_rate.samples() == push_step(
        pre.disk_write_rate.samples(),
        pre.disk_write_rate.spec_counter(),
        pre.disk_write_rate.spec_capacity(),
        o.message_stats.disk_writes_details.rate,
    )
}

impl OverviewPane {
    /// All chart buffers are well-formed.
    pub open spec fn wf(&self) -> bool {
        &&& self.data.overall.wf()
        &&& self.data.ready.wf()
        &&& self.data.unacked.wf()
        &&& self.data.disk_read_rate.wf()
        &&& self.data.disk_write_rate.wf()
    }

    /// Room to take one more tick without any counter overflowing.
    pub open spec fn can_tick(&self) -> bool {
        &&& self.counter < u64::MAX
        &&& self.data.overall.spec_counter() < u64::MAX
        &&& self.data.ready.spec_counter() < u64::MAX
        &&& self.data.unacked.spec_counter() < u64::MAX
        &&& self.data.disk_read_rate.spec_counter() < u64::MAX
        &&& self.data.disk_write_rate.spec_counter() < u64::MAX
    }

    /// A pane seeded with one sample per series from an initial fetch, so
    /// that axis scaling never meets an empty buffer.
    pub fn new(initial: &Overview) -> (r: Self)
        ensures
            r.wf(),
            r.counter == 0,
            !r.should_show_help,
            r.data.overall.samples() == seq![(0u64, initial.queue_totals.messages)],
            r.data.ready.samples() == seq![(0u64, initial.queue_totals.messages_ready)],
            r.data.unacked.samples() == seq![(0u64, initial.queue_totals.messages_unacked)],
            r.data.disk_read_rate.samples() == seq![
                (0u64, initial.message_stats.disk_reads_details.rate),
            ],
            r.data.disk_write_rate.samples() == seq![
                (0u64, initial.message_stats.disk_writes_details.rate),
            ],
    {
        let mut overall = ChartData::default();
        overall.push(initial.queue_totals.messages);
        let mut ready = ChartData::default();
        ready.push(initial.queue_totals.messages_ready);
        let mut unacked = ChartData::default();
        unacked.push(initial.queue_totals.messages_unacked);
        let mut disk_read_rate = ChartData::default();
        disk_read_rate.push(initial.message_stats.disk_reads_details.rate);
        let mut disk_write_rate = ChartData::default();
        disk_write_rate.push(initial.message_stats.disk_writes_details.rate);
        proof {
            assert(overall.samples() =~= seq![(0u64, initial.queue_totals.messages)]);
            assert(ready.samples() =~= seq![(0u64, initial.queue_totals.messages_ready)]);
            assert(unacked.samples() =~= seq![(0u64, initial.queue_totals.messages_unacked)]);
            assert(disk_read_rate.samples() =~= seq![
                (0u64, initial.message_stats.disk_reads_details.rate),
            ]);
            assert(disk_write_rate.samples() =~= seq![
                (0u64, initial.message_stats.disk_writes_details.rate),
            ]);
        }
        OverviewPane {
            data: OverviewData { overall, ready, unacked, disk_read_rate, disk_write_rate },
            counter: 0,
            should_show_help: false,
        }
    }

    /// The overview binds only the help toggle; every other key is ignored.
    pub fn handle_key(&mut self, key: Key) -> (r: Action)
        ensures
            r is Noop,
            overview_step(*old(self), key, *final(self)),
    {
        match key {
            Key::Char(c) => {
                if c == '?' {
                    self.should_show_help = !self.should_show_help;
                }
            },
            _ => {},
        }
        Action::Noop
    }

    /// Runtime test of [`OverviewPane::can_tick`], for callers outside the
    /// verified world who must check it before calling `update`.
    pub fn can_take_tick(&self) -> (r: bool)
        ensures
            r == self.can_tick(),
    {
        self.counter < u64::MAX && self.data.overall.x_max() < u64::MAX
            && self.data.ready.x_max() < u64::MAX && self.data.unacked.x_max() < u64::MAX
            && self.data.disk_read_rate.x_max() < u64::MAX && self.data.disk_write_rate.x_max()
            < u64::MAX
    }

    /// Adopt the newest background fetch, if one arrived: every series gains
    /// one sample. With no fresh data the pane keeps displaying what it has.
    pub fn update(&mut self, fetched: Option<Overview>)
        requires
            old(self).wf(),
            old(self).can_tick(),
        ensures
            final(self).wf(),
            final(self).should_show_help == old(self).should_show_help,
            match fetched {
                None => *final(self) == *old(self),
                Some(o) => {
                    &&& final(self).counter == old(self).counter + 1
                    &&& overview_pushed(old(self).data, o, final(self).data)
                },
            },
    {
        match fetched {
            None => {},
            Some(o) => {
                self.counter = self.counter + 1;
                self.data.ready.push(o.queue_totals.messages_ready);
                self.data.overall.push(o.queue_totals.messages);
                self.data.unacked.push(o.queue_totals.messages_unacked);
                self.data.disk_write_rate.push(o.message_stats.disk_writes_details.rate);
                self.data.disk_read_rate.push(o.message_stats.disk_reads_details.rate);
            },
        }
    }
}

/// The overview pane's whole key transition: only the help toggle moves.
pub open spec fn overview_step(pre: OverviewPane, key: Key, post: OverviewPane) -> bool {
    &&& post.data == pre.data
    &&& post.counter == pre.counter
    &&& post.should_show_help == (if key matches Key::Char(c) && c == '?' {
        !pre.should_show_help
    } else {
        pre.should_show_help
    })
}

// ---------------------------------------------------------------------------
// Exchange pane
// ---------------------------------------------------------------------------

/// The exchanges tab: the exchange table, and a drilldown popout listing the
/// selected exchange's bindings, fetched on demand.
pub struct ExchangePane {
    pub table: Datatable<ExchangeInfo>,
    pub bindings_table: Datatable<ExchangeBindings>,
    pub should_fetch_bindings: bool,
    pub should_draw_popout: bool,
    pub should_show_help: bool,
}

impl ExchangePane {
    /// Both tables keep their selections in bounds.
    pub open spec fn wf(&self) -> bool {
        self.table.wf() && self.bindings_table.wf()
    }

    /// A pane over an initial exchange listing, popout and help closed.
    pub fn new(data: Vec<ExchangeInfo>) -> (r: Self)
        ensures
            r.wf(),
            r.table.data.entries == data,
            r.table.state.selected is None,
            r.bindings_table.spec_len() == 0,
            !r.should_fetch_bindings,
            !r.should_draw_popout,
            !r.should_show_help,
    {
        ExchangePane {
            table: Datatable::new(data),
            bindings_table: Datatable::default(),
            should_fetch_bindings: false,
            should_draw_popout: false,
            should_show_help: false,
        }
    }

    /// Step the table the popout is covering, or the main one.
    fn forward_table(&mut self)
        requires
            old(self).wf(),
        ensures
            final(self).wf(),
            exchange_nav(*old(self), *final(self), true),
    {
        if self.should_draw_popout {
            self.bindings_table.next();
        } else {
            self.table.next();
        }
    }

    /// Step back in the table the popout is covering, or the main one.
    fn back_table(&mut self)
        requires
            old(self).wf(),
        ensures
            final(self).wf(),
            exchange_nav(*old(self), *final(self), false),
    {
        if self.should_draw_popout {
            self.bindings_table.previous();
        } else {
            self.table.previous();
        }
    }

    /// Row navigation, the drilldown toggle and the help toggle; other keys
    /// are ignored.
    pub fn handle_key(&mut self, key: Key) -> (r: Action)
        requires
            old(self).wf(),
        ensures
            final(self).wf(),
            r is Noop,
            exchange_step(*old(self), key, *final(self)),
    {
        match key {
            Key::Char(c) => {
                if c == 'j' {
                    self.forward_table();
                } else if c == 'k' {
                    self.back_table();
                } else if c == '\n' {
                    self.should_fetch_bindings = true;
                    self.should_draw_popout = !self.should_draw_popout;
                } else if c == '?' {
                    self.should_show_help = !self.should_show_help;
                }
            },
            _ => {},
        }
        Action::Noop
    }

    /// Adopt a fresh exchange listing. Selection is positional and kept
    /// where it still fits, as a refresh should not steal the cursor.
    pub fn update(&mut self, data: Vec<ExchangeInfo>)
        requires
            old(self).wf(),
        ensures
            final(self).wf(),
            final(self).table.data.entries == data,
            final(self).table.state.selected == (match old(self).table.state.selected {
                Some(i) => if i < data@.len() {
                    Some(i)
                } else {
                    None
                },
                None => None::<usize>,
            }),
            final(self).bindings_table == old(self).bindings_table,
            final(self).should_fetch_bindings == old(self).should_fetch_bindings,
            final(self).should_draw_popout == old(self).should_draw_popout,
            final(self).should_show_help == old(self).should_show_help,
    {
        self.table.replace(data);
    }

    /// The row whose bindings want fetching: set when the popout is open on
    /// a selected exchange whose drilldown has not been fetched yet.
    pub fn pending_drilldown(&self) -> (r: Option<usize>)
        ensures
            r == (if self.should_draw_popout && self.should_fetch_bindings {
                self.table.state.selected
            } else {
                None::<usize>
            }),
    {
        if self.should_draw_popout && self.should_fetch_bindings {
            self.table.state.selected()
        } else {
            None
        }
    }

    /// Adopt the fetched bindings for the drilldown popout.
    pub fn adopt_bindings(&mut self, rows: Vec<ExchangeBindings>)
        ensures
            final(self).wf() == old(self).table.wf(),
            final(self).table == old(self).table,
            final(self).bindings_table.data.entries == rows,
            final(self).bindings_table.state.selected is None,
            !final(self).should_fetch_bindings,
            final(self).should_draw_popout == old(self).should_draw_popout,
            final(self).should_show_help == old(self).should_show_help,
    {
        self.bindings_table = Datatable::new(rows);
        self.should_fetch_bindings = false;
    }
}

/// One navigation step on the exchange pane: the popout's table when it is
/// open, the main table otherwise; everything else untouched.
pub open spec fn exchange_nav(pre: ExchangePane, post: ExchangePane, forward: bool) -> bool {
    &&& post.should_fetch_bindings == pre.should_fetch_bindings
    &&& post.should_draw_popout == pre.should_draw_popout
    &&& post.should_show_help == pre.should_show_help
    &&& post.table.data == pre.table.data
    &&& post.bindings_table.data == pre.bindings_table.data
    &&& if pre.should_draw_popout {
        &&& post.table == pre.table
        &&& post.bindings_table.state.selected == (if forward {
            next_sel(pre.bindings_table.spec_len(), pre.bindings_table.state.selected)
        } else {
            prev_sel(pre.bindings_table.spec_len(), pre.bindings_table.state.selected)
        })
    } else {
        &&& post.bindings_table == pre.bindings_table
        &&& post.table.state.selected == (if forward {
            next_sel(pre.table.spec_len(), pre.table.state.selected)
        } else {
            prev_sel(pre.table.spec_len(), pre.table.state.selected)
        })
    }
}

/// The exchange pane's whole key transition.
pub open spec fn exchange_step(pre: ExchangePane, key: Key, post: ExchangePane) -> bool {
    match key {
        Key::Char(c) => {
            if c == 'j' {
                exchange_nav(pre, post, true)
            } else if c == 'k' {
                exchange_nav(pre, post, false)
            } else if c == '\n' {
                post == (ExchangePane {
                    should_fetch_bindings: true,
                    should_draw_popout: !pre.should_draw_popout,
                    ..pre
                })
            } else if c == '?' {
                post == (ExchangePane { should_show_help: !pre.should_show_help, ..pre })
            } else {
                post == pre
            }
        },
        _ => post == pre,
    }
}

// ---------------------------------------------------------------------------
// Queues pane
// ---------------------------------------------------------------------------

/// The queues tab: the queue table, refreshed in the background, with the
/// purge confirmation dialog, the file browser and the help text as its
/// modal overlays, and clipboard-driven publish and pop.
pub struct QueuesPane {
    pub table: Datatable<QueueInfo>,
    pub confirmation: ConfirmationBox,
    pub explorer: FileNavigator,
    pub overlay: OverlayState,
    pub notif: Option<NotifKind>,
}

impl QueuesPane {
    /// Every component keeps its selection in bounds.
    pub open spec fn wf(&self) -> bool {
        &&& self.table.wf()
        &&& self.confirmation.wf()
        &&& self.explorer.wf()
    }

    /// A pane over an initial queue listing, with a file browser already
    /// showing some directory; no overlay open, no notification shown.
    pub fn new(data: Vec<QueueInfo>, explorer: FileNavigator) -> (r: Self)
        requires
            explorer.wf(),
        ensures
            r.wf(),
            r.table.data.entries == data,
            r.table.state.selected is None,
            r.confirmation.spec_selected() == Some(0usize),
            r.explorer == explorer,
            r.overlay is Inactive,
            r.notif is None,
    {
        QueuesPane {
            table: Datatable::new(data),
            confirmation: ConfirmationBox::default(),
            explorer,
            overlay: OverlayState::Inactive,
            notif: None,
        }
    }

    /// Route one key press, per the overlay priority: an armed confirmation
    /// owns every key; else an open file browser; else the help text heeds
    /// only its toggle; else the main table. Any previous notification is
    /// cleared first. The returned [`Action`] is what the shell must now
    /// perform; in particular a purge is emitted exactly when the armed
    /// confirmation rests on `Yes` at confirm time.
    pub fn handle_key(&mut self, key: Key) -> (r: Action)
        requires
            old(self).wf(),
        ensures
            final(self).wf(),
            queues_step(*old(self), key, *final(self), r),
    {
        self.notif = None;
        match self.overlay {
            OverlayState::Confirmation => {
                match key {
                    Key::Char(c) => {
                        if c == 'j' {
                            self.confirmation.next();
                            Action::Noop
                        } else if c == 'k' {
                            self.confirmation.previous();
                            Action::Noop
                        } else if c == '\n' {
                            let confirmed = self.confirmation.is_confirmed();
                            self.confirmation.reset();
                            self.overlay = OverlayState::Inactive;
                            if confirmed {
                                match self.table.state.selected() {
                                    Some(i) => {
                                        let info = &self.table.data.entries[i];
                                        self.notif = Some(NotifKind::Purged);
                                        Action::Purge {
                                            queue: info.name.clone(),
                                            vhost: info.vhost.clone(),
                                        }
                                    },
                                    None => Action::Noop,
                                }
                            } else {
                                Action::Noop
                            }
                        } else {
                            Action::Noop
                        }
                    },
                    _ => Action::Noop,
                }
            },
            OverlayState::FileBrowser => {
                match key {
                    Key::Char(c) => {
                        if c == 'j' {
                            self.explorer.next();
                            Action::Noop
                        } else if c == 'k' {
                            self.explorer.previous();
                            Action::Noop
                        } else if c == 'f' {
                            self.overlay = OverlayState::Inactive;
                            Action::Noop
                        } else if c == '\n' {
                            match self.explorer.select() {
                                SelectOutcome::NoEntry => Action::Noop,
                                SelectOutcome::Dir(path) => Action::ListDir { path },
                                SelectOutcome::File(path) => {
                                    match self.table.state.selected() {
                                        Some(i) => {
                                            let info = &self.table.data.entries[i];
                                            self.overlay = OverlayState::Inactive;
                                            self.notif = Some(NotifKind::PostedFromFile);
                                            Action::PostFromFile {
                                                path,
                                                queue: info.name.clone(),
                                                vhost: info.vhost.clone(),
                                            }
                                        },
                                        None => Action::Noop,
                                    }
                                },
                            }
                        } else {
                            Action::Noop
                        }
                    },
                    Key::Backspace => {
                        match self.explorer.select_parent() {
                            Some(path) => Action::ListDir { path },
                            None => Action::Noop,
                        }
                    },
                    _ => Action::Noop,
                }
            },
            OverlayState::Help => {
                match key {
                    Key::Char(c) => {
                        if c == '?' {
                            self.overlay = OverlayState::Inactive;
                        }
                        Action::Noop
                    },
                    _ => Action::Noop,
                }
            },
            OverlayState::Inactive => {
                match key {
                    Key::Char(c) => {
                        if c == 'j' {
                            self.table.next();
                            Action::Noop
                        } else if c == 'k' {
                            self.table.previous();
                            Action::Noop
                        } else if c == 'p' {
                            match self.table.state.selected() {
                                Some(i) => {
                                    let info = &self.table.data.entries[i];
                                    self.notif = Some(NotifKind::PastedFromClipboard);
                                    Action::PublishFromClipboard {
                                        queue: info.name.clone(),
                                        vhost: info.vhost.clone(),
                                    }
                                },
                                None => Action::Noop,
                            }
                        } else if c == 'd' {
                            if self.table.state.selected().is_some() {
                                self.confirmation.reset();
                                self.overlay = OverlayState::Confirmation;
                            }
                            Action::Noop
                        } else if c == 'f' {
                            self.overlay = OverlayState::FileBrowser;
                            Action::Noop
                        } else if c == '?' {
                            self.overlay = OverlayState::Help;
                            Action::Noop
                        } else {
                            Action::Noop
                        }
                    },
                    Key::Ctrl(c) => {
                        if c == 'p' {
                            match self.table.state.selected() {
                                Some(i) => {
                                    let info = &self.table.data.entries[i];
                                    Action::PopToClipboard {
                                        queue: info.name.clone(),
                                        vhost: info.vhost.clone(),
                                    }
                                },
                                None => Action::Noop,
                            }
                        } else {
                            Action::Noop
                        }
                    },
                    _ => Action::Noop,
                }
            },
        }
    }

    /// Report how a pop turned out: a message was copied to the clipboard,
    /// or there was none to copy.
    pub fn on_pop_result(&mut self, found: bool)
        ensures
            final(self).table == old(self).table,
            final(self).confirmation == old(self).confirmation,
            final(self).explorer == old(self).explorer,
            final(self).overlay == old(self).overlay,
            final(self).notif == Some(
                if found {
                    NotifKind::CopiedToClipboard
                } else {
                    NotifKind::NoMessageToCopy
                },
            ),
    {
        self.notif = Some(
            if found {
                NotifKind::CopiedToClipboard
            } else {
                NotifKind::NoMessageToCopy
            },
        );
    }

    /// Adopt the newest background fetch of the queue listing, if one
    /// arrived. Selection is positional and kept where it still fits.
    pub fn update(&mut self, data: Option<Vec<QueueInfo>>)
        requires
            old(self).wf(),
        ensures
            final(self).wf(),
            final(self).confirmation == old(self).confirmation,
            final(self).explorer == old(self).explorer,
            final(self).overlay == old(self).overlay,
            final(self).notif == old(self).notif,
            match data {
                None => final(self).table == old(self).table,
                Some(d) => {
                    &&& final(self).table.data.entries == d
                    &&& final(self).table.state.selected == (match old(self).table.state.selected {
                        Some(i) => if i < d@.len() {
                            Some(i)
                        } else {
                            None
                        },
                        None => None::<usize>,
                    })
                },
            },
    {
        match data {
            None => {},
            Some(d) => {
                self.table.replace(d);
            },
        }
    }

    /// Adopt a fresh listing for the file browser after a `ListDir` action.
    pub fn adopt_dir_listing(&mut self, root: String, listing: Vec<FileEntry>)
        ensures
            final(self).table == old(self).table,
            final(self).confirmation == old(self).confirmation,
            final(self).overlay == old(self).overlay,
            final(self).notif == old(self).notif,
            final(self).explorer.wf(),
            final(self).explorer.shows_listing(root@, listing@),
            final(self).wf() == (old(self).table.wf() && old(self).confirmation.wf()),
    {
        self.explorer.adopt_listing(root, listing);
    }
}

/// Everything of the queues pane but the confirmation dialog and the
/// notification is as it was.
pub open spec fn queues_frame_conf(pre: QueuesPane, post: QueuesPane) -> bool {
    &&& post.table == pre.table
    &&& post.explorer == pre.explorer
    &&& post.confirmation.table.data == pre.confirmation.table.data
}

/// The queues pane's whole key transition: given the state before the press
/// and the key, which state and which action must come out.
pub open spec fn queues_step(pre: QueuesPane, key: Key, post: QueuesPane, action: Action) -> bool {
    match pre.overlay {
        OverlayState::Confirmation => {
            match key {
                Key::Char(c) => {
                    if c == 'j' {
                        &&& action is Noop
                        &&& queues_frame_conf(pre, post)
                        &&& post.overlay is Confirmation
                        &&& post.notif is None
                        &&& post.confirmation.spec_selected() == next_sel(
                            2,
                            pre.confirmation.spec_selected(),
                        )
                    } else if c == 'k' {
                        &&& action is Noop
                        &&& queues_frame_conf(pre, post)
                        &&& post.overlay is Confirmation
                        &&& post.notif is None
                        &&& post.confirmation.spec_selected() == prev_sel(
                            2,
                            pre.confirmation.spec_selected(),
                        )
                    } else if c == '\n' {
                        // Confirm or cancel: the dialog closes and resets to
                        // `No` either way; the purge goes out exactly when
                        // `Yes` was selected on a selected row.
                        &&& queues_frame_conf(pre, post)
                        &&& post.overlay is Inactive
                        &&& post.confirmation.spec_selected() == Some(0usize)
                        &&& (match pre.table.state.selected {
                            Some(i) => {
                                if pre.confirmation.spec_selected() == Some(1usize) {
                                    &&& (action matches Action::Purge { queue, vhost }
                                        && queue == pre.table.data.entries@[i as int].name
                                        && vhost == pre.table.data.entries@[i as int].vhost)
                                    &&& post.notif == Some(NotifKind::Purged)
                                } else {
                                    action is Noop && post.notif is None
                                }
                            },
                            None => action is Noop && post.notif is None,
                        })
                    } else {
                        action is Noop && post == (QueuesPane { notif: None, ..pre })
                    }
                },
                _ => action is Noop && post == (QueuesPane { notif: None, ..pre }),
            }
        },
        OverlayState::FileBrowser => {
            match key {
                Key::Char(c) => {
                    if c == 'j' {
                        &&& action is Noop
                        &&& explorer_nav(pre, post, true)
                    } else if c == 'k' {
                        &&& action is Noop
                        &&& explorer_nav(pre, post, false)
                    } else if c == 'f' {
                        &&& action is Noop
                        &&& post == (QueuesPane {
                            overlay: OverlayState::Inactive,
                            notif: None,
                            ..pre
                        })
                    } else if c == '\n' {
                        match pre.explorer.spec_selected() {
                            None => action is Noop && post == (QueuesPane { notif: None, ..pre }),
                            Some(fi) => {
                                let entry = pre.explorer.spec_entries()[fi as int];
                                let full = join_spec(pre.explorer.root@, entry.name@);
                                if entry.is_dir {
                                    // Descend: the shell lists the directory
                                    // and hands it back; nothing else moves.
                                    &&& (action matches Action::ListDir { path } && path@ == full)
                                    &&& post == (QueuesPane { notif: None, ..pre })
                                } else {
                                    match pre.table.state.selected {
                                        Some(i) => {
                                            &&& (action matches Action::PostFromFile {
                                                path,
                                                queue,
                                                vhost,
                                            }
                                                && path@ == full
                                                && queue == pre.table.data.entries@[i as int].name
                                                && vhost == pre.table.data.entries@[i as int].vhost)
                                            &&& post == (QueuesPane {
                                                overlay: OverlayState::Inactive,
                                                notif: Some(NotifKind::PostedFromFile),
                                                ..pre
                                            })
                                        },
                                        None => action is Noop && post == (QueuesPane {
                                            notif: None,
                                            ..pre
                                        }),
                                    }
                                }
                            },
                        }
                    } else {
                        action is Noop && post == (QueuesPane { notif: None, ..pre })
                    }
                },
                Key::Backspace => {
                    match crate::files::parent_spec(pre.explorer.root@) {
                        Some(p) => {
                            &&& (action matches Action::ListDir { path } && path@ == p)
                            &&& post == (QueuesPane { notif: None, ..pre })
                        },
                        None => action is Noop && post == (QueuesPane { notif: None, ..pre }),
                    }
                },
                _ => action is Noop && post == (QueuesPane { notif: None, ..pre }),
            }
        },
        OverlayState::Help => {
            &&& action is Noop
            &&& if key matches Key::Char(c) && c == '?' {
                post == (QueuesPane { overlay: OverlayState::Inactive, notif: None, ..pre })
            } else {
                post == (QueuesPane { notif: None, ..pre })
            }
        },
        OverlayState::Inactive => {
            match key {
                Key::Char(c) => {
                    if c == 'j' {
                        &&& action is Noop
                        &&& table_nav(pre, post, true)
                    } else if c == 'k' {
                        &&& action is Noop
                        &&& table_nav(pre, post, false)
                    } else if c == 'p' {
                        match pre.table.state.selected {
                            Some(i) => {
                                &&& (action matches Action::PublishFromClipboard { queue, vhost }
                                    && queue == pre.table.data.entries@[i as int].name
                                    && vhost == pre.table.data.entries@[i as int].vhost)
                                &&& post == (QueuesPane {
                                    notif: Some(NotifKind::PastedFromClipboard),
                                    ..pre
                                })
                            },
                            None => action is Noop && post == (QueuesPane { notif: None, ..pre }),
                        }
                    } else if c == 'd' {
                        // Arm the purge confirmation, selection on `No`,
                        // only when a row is selected.
                        &&& action is Noop
                        &&& (match pre.table.state.selected {
                            Some(_) => {
                                &&& queues_frame_conf(pre, post)
                                &&& post.overlay is Confirmation
                                &&& post.notif is None
                                &&& post.confirmation.spec_selected() == Some(0usize)
                            },
                            None => post == (QueuesPane { notif: None, ..pre }),
                        })
                    } else if c == 'f' {
                        &&& action is Noop
                        &&& post == (QueuesPane {
                            overlay: OverlayState::FileBrowser,
                            notif: None,
                            ..pre
                        })
                    } else if c == '?' {
                        &&& action is Noop
                        &&& post == (QueuesPane { overlay: OverlayState::Help, notif: None, ..pre })
                    } else {
                        action is Noop && post == (QueuesPane { notif: None, ..pre })
                    }
                },
                Key::Ctrl(c) => {
                    if c == 'p' {
                        match pre.table.state.selected {
                            Some(i) => {
                                &&& (action matches Action::PopToClipboard { queue, vhost }
                                    && queue == pre.table.data.entries@[i as int].name
                                    && vhost == pre.table.data.entries@[i as int].vhost)
                                &&& post == (QueuesPane { notif: None, ..pre })
                            },
                            None => action is Noop && post == (QueuesPane { notif: None, ..pre }),
                        }
                    } else {
                        action is Noop && post == (QueuesPane { notif: None, ..pre })
                    }
                },
                _ => action is Noop && post == (QueuesPane { notif: None, ..pre }),
            }
        },
    }
}

/// A navigation step of the file browser inside the queues pane.
pub open spec fn explorer_nav(pre: QueuesPane, post: QueuesPane, forward: bool) -> bool {
    &&& post.table == pre.table
    &&& post.confirmation == pre.confirmation
    &&& post.overlay == pre.overlay
    &&& post.notif is None
    &&& post.explorer.root == pre.explorer.root
    &&& post.explorer.spec_entries() == pre.explorer.spec_entries()
    &&& post.explorer.spec_selected() == (if forward {
        next_sel(pre.explorer.spec_entries().len(), pre.explorer.spec_selected())
    } else {
        prev_sel(pre.explorer.spec_entries().len(), pre.explorer.spec_selected())
    })
}

/// A navigation step of the queues table itself.
pub open spec fn table_nav(pre: QueuesPane, post: QueuesPane, forward: bool) -> bool {
    &&& post.confirmation == pre.confirmation
    &&& post.explorer == pre.explorer
    &&& post.overlay == pre.overlay
    &&& post.notif is None
    &&& post.table.data == pre.table.data
    &&& post.table.state.selected == (if forward {
        next_sel(pre.table.spec_len(), pre.table.state.selected)
    } else {
        prev_sel(pre.table.spec_len(), pre.table.state.selected)
    })
}

} // verus!
