use todo_service::decimal::to_decimal;
use todo_service::statement::{
    assignments, create_statement, delete_statement, list_statement, render_update,
    schema_statement, update_statement, Assignment, Column, Param, Statement, CREATE_SQL,
    DELETE_SQL, LIST_SQL, SCHEMA_SQL,
};
use todo_service::todo::{done_text, CreateTodo, UpdateTodo};

fn text(s: &str) -> Param {
    Param::Text(s.to_string())
}

fn update(author: Option<&str>, body: Option<&str>, done: Option<bool>) -> Option<Statement> {
    update_statement(UpdateTodo {
        id: 7,
        author: author.map(str::to_string),
        body: body.map(str::to_string),
        done,
    })
}

fn expect(sql: &str, params: Vec<Param>) -> Option<Statement> {
    Some(Statement { sql: sql.to_string(), params })
}

#[test]
fn decimal_of_small_and_large_numbers() {
    assert_eq!(to_decimal(0), "0");
    assert_eq!(to_decimal(7), "7");
    assert_eq!(to_decimal(10), "10");
    assert_eq!(to_decimal(109), "109");
    assert_eq!(to_decimal(9_007_199_254_740_993), "9007199254740993");
    assert_eq!(to_decimal(u64::MAX), "18446744073709551615");
}

#[test]
fn decimal_agrees_with_the_standard_rendering() {
    let mut n: u64 = 1;
    for _ in 0..64 {
        assert_eq!(to_decimal(n), n.to_string());
        assert_eq!(to_decimal(n - 1), (n - 1).to_string());
        n = n.wrapping_mul(2);
    }
}

#[test]
fn done_is_bound_as_one_or_zero() {
    assert_eq!(done_text(true), "1");
    assert_eq!(done_text(false), "0");
}

#[test]
fn schema_statement_creates_the_table_once() {
    let statement = schema_statement();
    assert_eq!(statement.sql, SCHEMA_SQL);
    assert_eq!(
        statement.sql,
        "CREATE TABLE IF NOT EXISTS todos (id INTEGER PRIMARY KEY AUTOINCREMENT, author TEXT NOT NULL, body TEXT NOT NULL, done INTEGER NOT NULL)"
    );
    assert!(statement.params.is_empty());
}

#[test]
fn list_statement_reads_the_four_columns() {
    let statement = list_statement();
    assert_eq!(statement.sql, LIST_SQL);
    assert_eq!(statement.sql, "SELECT id, author, body, done from todos");
    assert!(statement.params.is_empty());
}

#[test]
fn create_statement_binds_author_body_and_not_done() {
    let statement =
        create_statement(CreateTodo { author: "alice".to_string(), body: "buy milk".to_string() });
    assert_eq!(statement.sql, CREATE_SQL);
    assert_eq!(statement.sql, "INSERT INTO todos(author, body, done) values (?1, ?2, ?3)");
    assert_eq!(statement.params, vec![text("alice"), text("buy milk"), Param::Flag(false)]);
}

#[test]
fn delete_statement_binds_the_id() {
    let statement = delete_statement(5);
    assert_eq!(statement.sql, DELETE_SQL);
    assert_eq!(statement.sql, "DELETE FROM todos where id = ?");
    assert_eq!(statement.params, vec![text("5")]);
    assert_eq!(delete_statement(u64::MAX).params, vec![text("18446744073709551615")]);
}

#[test]
fn update_without_fields_has_no_statement() {
    assert_eq!(update(None, None, None), None);
}

#[test]
fn update_of_author_alone() {
    assert_eq!(
        update(Some("X"), None, None),
        expect("UPDATE todos SET author = ? WHERE id = ?", vec![text("X"), text("7")])
    );
}

#[test]
fn update_of_body_alone() {
    assert_eq!(
        update(None, Some("Y"), None),
        expect("UPDATE todos SET body = ? WHERE id = ?", vec![text("Y"), text("7")])
    );
}

#[test]
fn update_of_done_alone() {
    assert_eq!(
        update(None, None, Some(true)),
        expect("UPDATE todos SET done = ? WHERE id = ?", vec![text("1"), text("7")])
    );
    assert_eq!(
        update(None, None, Some(false)),
        expect("UPDATE todos SET done = ? WHERE id = ?", vec![text("0"), text("7")])
    );
}

#[test]
fn update_of_author_and_body() {
    assert_eq!(
        update(Some("X"), Some("Y"), None),
        expect(
            "UPDATE todos SET author = ?,body = ? WHERE id = ?",
            vec![text("X"), text("Y"), text("7")]
        )
    );
}

#[test]
fn update_of_author_and_done() {
    assert_eq!(
        update(Some("X"), None, Some(true)),
        expect(
            "UPDATE todos SET author = ?,done = ? WHERE id = ?",
            vec![text("X"), text("1"), text("7")]
        )
    );
}

#[test]
fn update_of_body_and_done() {
    assert_eq!(
        update(None, Some("Y"), Some(false)),
        expect(
            "UPDATE todos SET body = ?,done = ? WHERE id = ?",
            vec![text("Y"), text("0"), text("7")]
        )
    );
}

#[test]
fn update_of_all_three_fields() {
    assert_eq!(
        update(Some("X"), Some("Y"), Some(true)),
        expect(
            "UPDATE todos SET author = ?,body = ?,done = ? WHERE id = ?",
            vec![text("X"), text("Y"), text("1"), text("7")]
        )
    );
}

#[test]
fn update_never_puts_a_value_into_the_text() {
    let hostile = "x', done = 1 WHERE 1 = 1; --";
    let statement = update(Some(hostile), None, None).unwrap();
    assert_eq!(statement.sql, "UPDATE todos SET author = ? WHERE id = ?");
    assert_eq!(statement.params, vec![text(hostile), text("7")]);
}

#[test]
fn update_binds_as_many_values_as_it_has_placeholders() {
    for author in [None, Some("a")] {
        for body in [None, Some("b")] {
            for done in [None, Some(true)] {
                if let Some(statement) = update(author, body, done) {
                    let marks = statement.sql.chars().filter(|c| *c == '?').count();
                    assert_eq!(marks, statement.params.len());
                }
            }
        }
    }
}

#[test]
fn update_binds_the_id_last_and_in_decimal() {
    let statement = update_statement(UpdateTodo {
        id: u64::MAX,
        author: None,
        body: Some("b".to_string()),
        done: None,
    })
    .unwrap();
    assert_eq!(statement.params.last(), Some(&text("18446744073709551615")));
}

#[test]
fn assignments_follow_the_order_of_the_columns() {
    let set = assignments(UpdateTodo {
        id: 3,
        author: Some("a".to_string()),
        body: Some("b".to_string()),
        done: Some(false),
    });
    assert_eq!(
        set,
        vec![
            Assignment { column: Column::Author, value: "a".to_string() },
            Assignment { column: Column::Body, value: "b".to_string() },
            Assignment { column: Column::Done, value: "0".to_string() },
        ]
    );
    assert_eq!(assignments(UpdateTodo { id: 3, author: None, body: None, done: None }), vec![]);
}

#[test]
fn column_assignment_texts() {
    assert_eq!(Column::Author.assignment_text(), "author = ?");
    assert_eq!(Column::Body.assignment_text(), "body = ?");
    assert_eq!(Column::Done.assignment_text(), "done = ?");
}

#[test]
fn render_update_of_one_assignment() {
    let set = vec![Assignment { column: Column::Done, value: "1".to_string() }];
    assert_eq!(
        render_update(&set, 12),
        Statement {
            sql: "UPDATE todos SET done = ? WHERE id = ?".to_string(),
            params: vec![text("1"), text("12")],
        }
    );
}
