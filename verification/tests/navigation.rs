use rabbitui::table::Datatable;
use rabbitui::tabs::TabsState;

#[test]
fn next_selects_first_row_when_nothing_selected() {
    let mut t: Datatable<i32> = Datatable::new(vec![10, 20, 30]);
    assert_eq!(t.state.selected(), None);
    t.next();
    assert_eq!(t.state.selected(), Some(0));
}

#[test]
fn next_wraps_to_first_after_last() {
    let mut t: Datatable<i32> = Datatable::new(vec![10, 20, 30]);
    t.next();
    t.next();
    t.next();
    assert_eq!(t.state.selected(), Some(2));
    t.next();
    assert_eq!(t.state.selected(), Some(0));
}

#[test]
fn wraparound_closure_after_len_calls() {
    // A list of length N returns to the original selection after exactly
    // N calls of next().
    for n in 1..6usize {
        let items: Vec<usize> = (0..n).collect();
        let mut t: Datatable<usize> = Datatable::new(items);
        t.state.select(Some(0));
        for k in 1..n {
            t.next();
            assert_eq!(t.state.selected(), Some(k));
        }
        t.next();
        assert_eq!(t.state.selected(), Some(0));
    }
}

#[test]
fn previous_is_inverse_of_next() {
    let mut t: Datatable<i32> = Datatable::new(vec![1, 2, 3, 4]);
    t.state.select(Some(2));
    t.next();
    t.previous();
    assert_eq!(t.state.selected(), Some(2));
    t.previous();
    t.next();
    assert_eq!(t.state.selected(), Some(2));
}

#[test]
fn previous_wraps_to_last_from_first() {
    let mut t: Datatable<i32> = Datatable::new(vec![1, 2, 3]);
    t.state.select(Some(0));
    t.previous();
    assert_eq!(t.state.selected(), Some(2));
}

#[test]
fn empty_list_navigation_is_noop() {
    // next()/previous() on an empty list never panics and leaves the
    // selection as None.
    let mut t: Datatable<i32> = Datatable::new(Vec::new());
    t.next();
    assert_eq!(t.state.selected(), None);
    t.previous();
    assert_eq!(t.state.selected(), None);
    t.next();
    t.next();
    assert_eq!(t.state.selected(), None);
}

#[test]
fn replace_keeps_selection_positionally_and_clamps() {
    let mut t: Datatable<i32> = Datatable::new(vec![1, 2, 3]);
    t.state.select(Some(2));
    t.replace(vec![7, 8, 9, 10]);
    assert_eq!(t.state.selected(), Some(2));
    assert_eq!(*t.data.get(), vec![7, 8, 9, 10]);
    t.replace(vec![5]);
    assert_eq!(t.state.selected(), None);
}

#[test]
fn tabs_wrap_in_both_directions() {
    let titles = vec!["a".to_string(), "b".to_string(), "c".to_string()];
    let mut tabs = TabsState::new(titles);
    assert_eq!(tabs.index, 0);
    tabs.next();
    tabs.next();
    tabs.next();
    assert_eq!(tabs.index, 0);
    tabs.previous();
    assert_eq!(tabs.index, 2);
}
