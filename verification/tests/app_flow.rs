use rabbitui::files::FileNavigator;
use rabbitui::keys::Key;
use rabbitui::manager::{App, Pane, TabsManager, TickData};
use rabbitui::models::{
    Overview, OverviewMessageRates, OverviewQueueTotals, RateContainer,
};
use rabbitui::panes::{ExchangePane, OverviewPane, QueuesPane};

fn overview(messages: u64) -> Overview {
    Overview {
        queue_totals: OverviewQueueTotals {
            messages,
            messages_ready: messages / 2,
            messages_unacked: 1,
        },
        message_stats: OverviewMessageRates {
            disk_reads: 0,
            disk_reads_details: RateContainer { rate: 5 },
            disk_writes: 0,
            disk_writes_details: RateContainer { rate: 6 },
        },
    }
}

fn bindings() -> Vec<(String, Pane)> {
    let explorer = FileNavigator::new("/data".to_string(), Vec::new());
    vec![
        ("Overview".to_string(), Pane::Overview(OverviewPane::new(&overview(10)))),
        ("Exchanges".to_string(), Pane::Exchanges(ExchangePane::new(Vec::new()))),
        ("Queues".to_string(), Pane::Queues(QueuesPane::new(Vec::new(), explorer))),
    ]
}

#[test]
fn three_tabs_wrap_around_and_back() {
    // next() three times returns to the original index; previous() from 0
    // lands on 2.
    let mut m = TabsManager::new(bindings());
    assert_eq!(m.curr(), 0);
    m.next();
    m.next();
    m.next();
    assert_eq!(m.curr(), 0);
    m.prev();
    assert_eq!(m.curr(), 2);
}

#[test]
fn titles_stay_paired_with_panes() {
    let m = TabsManager::new(bindings());
    assert_eq!(
        *m.titles(),
        vec!["Overview".to_string(), "Exchanges".to_string(), "Queues".to_string()]
    );
}

#[test]
fn app_reserves_tab_switching_keys() {
    let mut app = App::new(bindings());
    app.handle_key(Key::Char('l'));
    assert_eq!(app.manager.curr(), 1);
    app.handle_key(Key::Char('h'));
    app.handle_key(Key::Char('h'));
    assert_eq!(app.manager.curr(), 2);
}

#[test]
fn other_keys_reach_only_the_active_pane() {
    let mut app = App::new(bindings());
    app.handle_key(Key::Char('?'));
    match &app.manager.panes[0] {
        Pane::Overview(p) => assert!(p.should_show_help),
        _ => panic!("first tab should be the overview"),
    }
    match &app.manager.panes[2] {
        Pane::Queues(p) => {
            assert_eq!(p.overlay, rabbitui::panes::OverlayState::Inactive)
        }
        _ => panic!("third tab should be the queues"),
    }
}

#[test]
fn a_tick_feeds_each_pane_its_own_data() {
    let mut app = App::new(bindings());
    let tick = TickData {
        overview: Some(overview(20)),
        exchanges: Some(Vec::new()),
        queues: None,
    };
    app.update(tick);
    match &app.manager.panes[0] {
        Pane::Overview(p) => {
            assert_eq!(p.counter, 1);
            assert_eq!(p.data.overall.len(), 2);
            assert_eq!(p.data.overall.last_value(), 20);
            assert_eq!(p.data.disk_write_rate.last_value(), 6);
        }
        _ => panic!("first tab should be the overview"),
    }
}

#[test]
fn a_tick_without_data_changes_nothing() {
    let mut app = App::new(bindings());
    let tick = TickData { overview: None, exchanges: None, queues: None };
    app.update(tick);
    match &app.manager.panes[0] {
        Pane::Overview(p) => {
            assert_eq!(p.counter, 0);
            assert_eq!(p.data.overall.len(), 1);
        }
        _ => panic!("first tab should be the overview"),
    }
}

#[test]
fn overview_pane_is_seeded_with_one_sample_per_series() {
    let p = OverviewPane::new(&overview(10));
    assert_eq!(p.data.overall.len(), 1);
    assert_eq!(p.data.overall.last_value(), 10);
    assert_eq!(p.data.ready.last_value(), 5);
    assert_eq!(p.data.unacked.last_value(), 1);
    assert_eq!(p.data.disk_read_rate.last_value(), 5);
    assert_eq!(p.data.disk_write_rate.last_value(), 6);
}
