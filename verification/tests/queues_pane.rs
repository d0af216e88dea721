use rabbitui::files::{FileEntry, FileNavigator};
use rabbitui::keys::Key;
use rabbitui::models::{QueueInfo, QueueMsgStats, RateContainer};
use rabbitui::panes::{Action, NotifKind, OverlayState, QueuesPane};

fn queue(name: &str, vhost: &str) -> QueueInfo {
    QueueInfo {
        name: name.to_string(),
        t: "classic".to_string(),
        state: "running".to_string(),
        message_stats: QueueMsgStats {
            publish: 0,
            publish_details: RateContainer { rate: 0 },
            deliver_get: 0,
            deliver_get_details: RateContainer { rate: 0 },
            ack: 0,
            ack_details: RateContainer { rate: 0 },
        },
        ready: 0,
        unacked: 0,
        total: 0,
        vhost: vhost.to_string(),
    }
}

fn pane_with_queues() -> QueuesPane {
    let explorer = FileNavigator::new("/data".to_string(), Vec::new());
    QueuesPane::new(vec![queue("orders", "/"), queue("audit", "prod")], explorer)
}

#[test]
fn purge_cancelled_when_confirmation_left_on_no() {
    // 'd' then enter with the selection left at its default: no purge goes
    // out and the overlay closes.
    let mut p = pane_with_queues();
    p.handle_key(Key::Char('j'));
    let armed = p.handle_key(Key::Char('d'));
    assert!(matches!(armed, Action::Noop));
    assert_eq!(p.overlay, OverlayState::Confirmation);
    let confirmed = p.handle_key(Key::Char('\n'));
    assert!(matches!(confirmed, Action::Noop));
    assert_eq!(p.overlay, OverlayState::Inactive);
    assert_eq!(p.notif, None);
}

#[test]
fn purge_issued_once_when_confirmed_with_yes() {
    // 'd', then 'j' (selection moves to Yes), then enter: exactly one purge
    // for the selected row's name and vhost, and a purged notification.
    let mut p = pane_with_queues();
    p.handle_key(Key::Char('j'));
    p.handle_key(Key::Char('j'));
    p.handle_key(Key::Char('d'));
    p.handle_key(Key::Char('j'));
    let action = p.handle_key(Key::Char('\n'));
    match action {
        Action::Purge { queue, vhost } => {
            assert_eq!(queue, "audit");
            assert_eq!(vhost, "prod");
        }
        other => panic!("expected a purge, got {:?}", other),
    }
    assert_eq!(p.notif, Some(NotifKind::Purged));
    assert_eq!(p.overlay, OverlayState::Inactive);
    // the dialog is back on No: confirming again without rearming stays idle
    let again = p.handle_key(Key::Char('\n'));
    assert!(matches!(again, Action::Noop));
}

#[test]
fn arming_requires_a_selected_row() {
    let mut p = pane_with_queues();
    p.handle_key(Key::Char('d'));
    assert_eq!(p.overlay, OverlayState::Inactive);
}

#[test]
fn publish_targets_selected_queue_and_notifies() {
    let mut p = pane_with_queues();
    p.handle_key(Key::Char('j'));
    let action = p.handle_key(Key::Char('p'));
    match action {
        Action::PublishFromClipboard { queue, vhost } => {
            assert_eq!(queue, "orders");
            assert_eq!(vhost, "/");
        }
        other => panic!("expected a publish, got {:?}", other),
    }
    assert_eq!(p.notif, Some(NotifKind::PastedFromClipboard));
}

#[test]
fn pop_reports_through_result_callback() {
    let mut p = pane_with_queues();
    p.handle_key(Key::Char('j'));
    let action = p.handle_key(Key::Ctrl('p'));
    assert!(matches!(action, Action::PopToClipboard { .. }));
    assert_eq!(p.notif, None);
    p.on_pop_result(true);
    assert_eq!(p.notif, Some(NotifKind::CopiedToClipboard));
    p.on_pop_result(false);
    assert_eq!(p.notif, Some(NotifKind::NoMessageToCopy));
}

#[test]
fn notifications_clear_on_the_next_key() {
    let mut p = pane_with_queues();
    p.handle_key(Key::Char('j'));
    p.handle_key(Key::Char('p'));
    assert_eq!(p.notif, Some(NotifKind::PastedFromClipboard));
    p.handle_key(Key::Char('k'));
    assert_eq!(p.notif, None);
}

#[test]
fn help_overlay_owns_input_until_toggled_off() {
    let mut p = pane_with_queues();
    p.handle_key(Key::Char('j'));
    p.handle_key(Key::Char('?'));
    assert_eq!(p.overlay, OverlayState::Help);
    // row keys are not routed to the table while help is open
    p.handle_key(Key::Char('j'));
    assert_eq!(p.table.state.selected(), Some(0));
    p.handle_key(Key::Char('?'));
    assert_eq!(p.overlay, OverlayState::Inactive);
}

#[test]
fn file_browser_descends_and_posts_files() {
    let listing = vec![
        FileEntry { name: "payloads".to_string(), is_dir: true },
        FileEntry { name: "msg.json".to_string(), is_dir: false },
    ];
    let explorer = FileNavigator::new("/data".to_string(), listing);
    let mut p = QueuesPane::new(vec![queue("orders", "/")], explorer);
    p.handle_key(Key::Char('j'));
    p.handle_key(Key::Char('f'));
    assert_eq!(p.overlay, OverlayState::FileBrowser);
    // first entry (a directory) is selected: enter asks for its listing
    let action = p.handle_key(Key::Char('\n'));
    match action {
        Action::ListDir { path } => assert_eq!(path, "/data/payloads"),
        other => panic!("expected a directory listing request, got {:?}", other),
    }
    // move to the file and enter: its contents go to the selected queue
    p.handle_key(Key::Char('j'));
    let action = p.handle_key(Key::Char('\n'));
    match action {
        Action::PostFromFile { path, queue, vhost } => {
            assert_eq!(path, "/data/msg.json");
            assert_eq!(queue, "orders");
            assert_eq!(vhost, "/");
        }
        other => panic!("expected a post from file, got {:?}", other),
    }
    assert_eq!(p.notif, Some(NotifKind::PostedFromFile));
    assert_eq!(p.overlay, OverlayState::Inactive);
}

#[test]
fn backspace_asks_for_the_parent_listing() {
    let explorer = FileNavigator::new("/data/payloads".to_string(), Vec::new());
    let mut p = QueuesPane::new(vec![queue("orders", "/")], explorer);
    p.handle_key(Key::Char('f'));
    let action = p.handle_key(Key::Backspace);
    match action {
        Action::ListDir { path } => assert_eq!(path, "/data"),
        other => panic!("expected a parent listing request, got {:?}", other),
    }
    // adopting the parent listing moves the browser there
    let listing = vec![FileEntry { name: "payloads".to_string(), is_dir: true }];
    p.adopt_dir_listing("/data".to_string(), listing);
    assert_eq!(p.explorer.root, "/data");
    assert_eq!(p.explorer.file_table.state.selected(), Some(0));
}

#[test]
fn update_adopts_newest_listing_and_keeps_cursor() {
    let mut p = pane_with_queues();
    p.handle_key(Key::Char('j'));
    p.update(Some(vec![queue("orders", "/"), queue("audit", "prod"), queue("new", "/")]));
    assert_eq!(p.table.state.selected(), Some(0));
    assert_eq!(p.table.data.get().len(), 3);
    p.update(None);
    assert_eq!(p.table.data.get().len(), 3);
}

#[test]
fn notification_texts_match_the_banners() {
    assert_eq!(NotifKind::PastedFromClipboard.message(), "Pasted from clipboard!");
    assert_eq!(NotifKind::CopiedToClipboard.message(), "Copied to clipboard!");
    assert_eq!(NotifKind::NoMessageToCopy.message(), "No messages to copy!");
    assert_eq!(NotifKind::Purged.message(), "Queue purged!");
    assert_eq!(NotifKind::PostedFromFile.message(), "Posted from file!");
}
