//! The listing browser: selection movement with wrap-around.

use ftp_client::browse::{App, StatefulList};

fn three_entries() -> StatefulList {
    StatefulList::with_items(vec!["a".to_string(), "b".to_string(), "c".to_string()])
}

#[test]
fn app_starts_with_no_items() {
    let app = App::new();
    assert_eq!(app.items().len(), 0);
    assert!(app.remote_list.selected.is_none());
}

#[test]
fn app_items_returns_the_listing() {
    let mut app = App::new();
    app.remote_list = three_entries();
    assert_eq!(app.items(), vec!["a".to_string(), "b".to_string(), "c".to_string()]);
}

#[test]
fn next_selects_first_then_advances_and_wraps() {
    let mut list = three_entries();
    assert!(list.selection().is_none());
    list.next();
    assert_eq!(list.selection(), Some(0));
    list.next();
    assert_eq!(list.selection(), Some(1));
    list.next();
    assert_eq!(list.selection(), Some(2));
    list.next();
    assert_eq!(list.selection(), Some(0));
}

#[test]
fn previous_selects_first_then_wraps_backwards() {
    let mut list = three_entries();
    list.previous();
    assert_eq!(list.selection(), Some(0));
    list.previous();
    assert_eq!(list.selection(), Some(2));
    list.previous();
    assert_eq!(list.selection(), Some(1));
}

#[test]
fn empty_list_keeps_nothing_selected() {
    let mut list = StatefulList::with_items(Vec::new());
    list.next();
    assert!(list.selection().is_none());
    list.previous();
    assert!(list.selection().is_none());
}
