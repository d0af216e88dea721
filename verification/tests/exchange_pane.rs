use rabbitui::keys::Key;
use rabbitui::models::{ExchangeBindings, ExchangeInfo};
use rabbitui::panes::ExchangePane;

fn exchange(name: &str) -> ExchangeInfo {
    ExchangeInfo {
        auto_delete: false,
        durable: true,
        internal: false,
        name: name.to_string(),
        t: "topic".to_string(),
        user_who_performed_action: "guest".to_string(),
        vhost: "/".to_string(),
    }
}

fn binding(dest: &str) -> ExchangeBindings {
    ExchangeBindings {
        source: "amq.topic".to_string(),
        vhost: "/".to_string(),
        dest: dest.to_string(),
        dest_type: "queue".to_string(),
        routing_key: "#".to_string(),
        prop_key: "#".to_string(),
    }
}

#[test]
fn enter_opens_the_drilldown_and_requests_bindings() {
    let mut p = ExchangePane::new(vec![exchange("amq.topic"), exchange("amq.direct")]);
    assert_eq!(p.pending_drilldown(), None);
    p.handle_key(Key::Char('j'));
    p.handle_key(Key::Char('\n'));
    assert!(p.should_draw_popout);
    assert_eq!(p.pending_drilldown(), Some(0));
    p.adopt_bindings(vec![binding("orders")]);
    assert_eq!(p.pending_drilldown(), None);
    assert_eq!(p.bindings_table.data.get().len(), 1);
}

#[test]
fn enter_again_closes_the_drilldown() {
    let mut p = ExchangePane::new(vec![exchange("amq.topic")]);
    p.handle_key(Key::Char('j'));
    p.handle_key(Key::Char('\n'));
    p.handle_key(Key::Char('\n'));
    assert!(!p.should_draw_popout);
}

#[test]
fn row_keys_move_the_popout_table_while_it_is_open() {
    let mut p = ExchangePane::new(vec![exchange("amq.topic"), exchange("amq.direct")]);
    p.handle_key(Key::Char('j'));
    p.handle_key(Key::Char('\n'));
    p.adopt_bindings(vec![binding("a"), binding("b")]);
    p.handle_key(Key::Char('j'));
    assert_eq!(p.bindings_table.state.selected(), Some(0));
    // the main table's cursor did not move
    assert_eq!(p.table.state.selected(), Some(0));
    p.handle_key(Key::Char('\n'));
    p.handle_key(Key::Char('j'));
    assert_eq!(p.table.state.selected(), Some(1));
}

#[test]
fn update_keeps_the_cursor_positionally() {
    let mut p = ExchangePane::new(vec![exchange("a"), exchange("b")]);
    p.handle_key(Key::Char('j'));
    p.handle_key(Key::Char('j'));
    assert_eq!(p.table.state.selected(), Some(1));
    p.update(vec![exchange("x"), exchange("y"), exchange("z")]);
    assert_eq!(p.table.state.selected(), Some(1));
    p.update(vec![exchange("only")]);
    assert_eq!(p.table.state.selected(), None);
}

#[test]
fn help_toggles_with_the_question_mark() {
    let mut p = ExchangePane::new(Vec::new());
    p.handle_key(Key::Char('?'));
    assert!(p.should_show_help);
    p.handle_key(Key::Char('?'));
    assert!(!p.should_show_help);
}
