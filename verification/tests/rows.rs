use todo_service::store::{listed, written, StoreError};
use todo_service::todo::{todos_from_rows, StoredRow, Todo, UpdateTodo};

fn row(id: i64, author: &str, body: &str, done: i64) -> StoredRow {
    StoredRow { id, author: author.to_string(), body: body.to_string(), done }
}

fn todo(id: u64, author: &str, body: &str, done: bool) -> Todo {
    Todo { id, author: author.to_string(), body: body.to_string(), done }
}

#[test]
fn a_row_becomes_an_entry() {
    assert_eq!(row(1, "alice", "buy milk", 0).to_todo(), Some(todo(1, "alice", "buy milk", false)));
    assert_eq!(row(2, "bob", "sweep", 1).to_todo(), Some(todo(2, "bob", "sweep", true)));
    assert_eq!(row(0, "", "", 0).to_todo(), Some(todo(0, "", "", false)));
    assert_eq!(
        row(i64::MAX, "a", "b", 1).to_todo(),
        Some(todo(9_223_372_036_854_775_807, "a", "b", true))
    );
}

#[test]
fn any_integer_but_zero_reads_as_done() {
    assert_eq!(row(1, "a", "b", 2).to_todo().unwrap().done, true);
    assert_eq!(row(1, "a", "b", -1).to_todo().unwrap().done, true);
    assert_eq!(row(1, "a", "b", 0).to_todo().unwrap().done, false);
}

#[test]
fn a_row_with_a_negative_id_is_no_entry() {
    assert_eq!(row(-1, "a", "b", 0).to_todo(), None);
    assert_eq!(row(i64::MIN, "a", "b", 0).to_todo(), None);
}

#[test]
fn rows_become_entries_in_their_order() {
    let rows = vec![row(3, "c", "z", 1), row(1, "a", "x", 0), row(2, "b", "y", 0)];
    assert_eq!(
        todos_from_rows(&rows),
        Some(vec![todo(3, "c", "z", true), todo(1, "a", "x", false), todo(2, "b", "y", false)])
    );
    assert_eq!(todos_from_rows(&vec![]), Some(vec![]));
}

#[test]
fn one_bad_row_fails_the_listing() {
    let rows = vec![row(1, "a", "x", 0), row(-5, "b", "y", 0), row(2, "c", "z", 0)];
    assert_eq!(todos_from_rows(&rows), None);
    assert_eq!(listed::<()>(Ok(rows)), Err(StoreError::Row));
}

#[test]
fn listed_maps_the_answer_of_the_database() {
    assert_eq!(listed::<()>(Ok(vec![row(1, "a", "x", 1)])), Ok(vec![todo(1, "a", "x", true)]));
    assert_eq!(listed::<()>(Ok(vec![])), Ok(vec![]));
    assert_eq!(listed(Err("disk full")), Err(StoreError::Statement));
}

#[test]
fn written_maps_the_answer_of_the_database() {
    assert_eq!(written::<()>(Ok(0)), Ok(0));
    assert_eq!(written::<()>(Ok(3)), Ok(3));
    assert_eq!(written(Err("disk full")), Err(StoreError::Statement));
}

#[test]
fn a_request_has_a_change_if_it_names_a_field() {
    let none = UpdateTodo { id: 1, author: None, body: None, done: None };
    assert!(!none.has_change());
    assert!(UpdateTodo { author: Some(String::new()), ..none.clone() }.has_change());
    assert!(UpdateTodo { body: Some("b".to_string()), ..none.clone() }.has_change());
    assert!(UpdateTodo { done: Some(false), ..none.clone() }.has_change());
}
