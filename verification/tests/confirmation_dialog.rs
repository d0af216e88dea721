use rabbitui::confirmation::ConfirmationBox;

#[test]
fn starts_on_no_and_unconfirmed() {
    let c = ConfirmationBox::default();
    assert_eq!(c.table.state.selected(), Some(0));
    assert!(!c.is_confirmed());
}

#[test]
fn one_press_reaches_yes() {
    let mut c = ConfirmationBox::default();
    c.next();
    assert!(c.is_confirmed());
}

#[test]
fn selection_wraps_every_two_presses() {
    let mut c = ConfirmationBox::default();
    c.next();
    c.next();
    assert_eq!(c.table.state.selected(), Some(0));
    assert!(!c.is_confirmed());
    c.next();
    c.next();
    assert!(!c.is_confirmed());
}

#[test]
fn previous_also_toggles_over_two_options() {
    let mut c = ConfirmationBox::default();
    c.previous();
    assert!(c.is_confirmed());
    c.previous();
    assert!(!c.is_confirmed());
}

#[test]
fn reset_returns_selection_to_no() {
    let mut c = ConfirmationBox::default();
    c.next();
    assert!(c.is_confirmed());
    c.reset();
    assert!(!c.is_confirmed());
    assert_eq!(c.table.state.selected(), Some(0));
}

#[test]
fn options_are_no_then_yes() {
    let c = ConfirmationBox::default();
    assert_eq!(*c.table.data.get(), vec!["No".to_string(), "Yes".to_string()]);
}
