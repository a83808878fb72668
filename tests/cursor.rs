use arxiv_cli::{App, Response};

fn doc(id: &str) -> Response {
    Response { id: id.to_string(), ..Default::default() }
}

fn app_with(n: usize) -> App {
    let mut app = App::new();
    app.update_items((0..n).map(|i| doc(&format!("id{}", i))).collect());
    app
}

#[test]
fn first_step_lands_on_row_zero() {
    let mut app = app_with(10);
    app.next_by(5);
    assert_eq!(app.current(), Some(0));
}

#[test]
fn step_forward_adds_and_clamps() {
    let mut app = app_with(10);
    app.first_item();
    app.next_by(3);
    assert_eq!(app.current(), Some(3));
    app.next_by(100);
    assert_eq!(app.current(), Some(9));
    app.next_by(usize::MAX);
    assert_eq!(app.current(), Some(9));
}

#[test]
fn step_backward_subtracts_and_clamps() {
    let mut app = app_with(10);
    app.last_item();
    app.previous_by(4);
    assert_eq!(app.current(), Some(5));
    app.previous_by(5);
    assert_eq!(app.current(), Some(0));
    app.previous_by(1);
    assert_eq!(app.current(), Some(0));
}

#[test]
fn first_step_back_lands_on_row_zero() {
    let mut app = app_with(4);
    app.previous_by(2);
    assert_eq!(app.current(), Some(0));
}

#[test]
fn steps_on_empty_page_do_not_fail() {
    let mut app = App::new();
    app.next_by(1);
    assert_eq!(app.current(), Some(0));
    app.next_by(7);
    assert_eq!(app.current(), Some(0));
    app.previous_by(3);
    assert_eq!(app.current(), Some(0));
    assert!(app.selected().is_none());
}

#[test]
fn first_then_last() {
    let mut app = app_with(7);
    app.first_item();
    app.last_item();
    assert_eq!(app.current(), Some(6));
    let mut empty = App::new();
    empty.first_item();
    empty.last_item();
    assert_eq!(empty.current(), Some(0));
}

#[test]
fn replacing_items_clears_selection() {
    let mut app = app_with(7);
    app.last_item();
    app.update_items(vec![doc("z")]);
    assert_eq!(app.current(), None);
    assert_eq!(app.selected().map(|d| d.id.clone()), Some("z".to_string()));
}

#[test]
fn seen_marks_by_id() {
    let mut app = app_with(2);
    app.add_id("id1".to_string());
    assert!(app.is_seen(&"id1".to_string()));
    app.remove_id("id1".to_string());
    assert!(!app.is_seen(&"id1".to_string()));
}
