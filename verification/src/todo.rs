//! The todo entity, the bodies of the requests that create and change it, and
//! the form in which a row of the store holds it.

use crate::decimal::{decimal, decimal_value, lemma_decimal_value};
use vstd::prelude::*;

verus! {

/// One entry of the list.
#[derive(Debug, Clone, PartialEq, Eq)]
pub struct Todo {
    /// Assigned by the store when the entry is created; never changed.
    pub id: u64,
    pub author: String,
    pub body: String,
    pub done: bool,
}

/// What a [`Todo`] is in contracts.
pub struct TodoView {
    pub id: u64,
    pub author: Seq<char>,
    pub body: Seq<char>,
    pub done: bool,
}

impl View for Todo {
    type V = TodoView;

    open spec fn view(&self) -> TodoView {
        TodoView { id: self.id, author: self.author@, body: self.body@, done: self.done }
    }
}

/// The views of a list of entries, in the same order.
pub open spec fn todo_views(todos: Seq<Todo>) -> Seq<TodoView> {
    todos.map_values(|t: Todo| t@)
}

/// The body of a request that creates an entry. A new entry is never done.
#[derive(Debug, Clone, PartialEq, Eq)]
pub struct CreateTodo {
    pub author: String,
    pub body: String,
}

/// What a [`CreateTodo`] is in contracts.
pub struct CreateTodoView {
    pub author: Seq<char>,
    pub body: Seq<char>,
}

impl View for CreateTodo {
    type V = CreateTodoView;

    open spec fn view(&self) -> CreateTodoView {
        CreateTodoView { author: self.author@, body: self.body@ }
    }
}

/// The body of a request that changes the entry `id`: each field that is
/// present replaces the stored one, each absent field leaves it as it is.
#[derive(Debug, Clone, PartialEq, Eq)]
pub struct UpdateTodo {
    pub id: u64,
    pub author: Option<String>,
    pub body: Option<String>,
    pub done: Option<bool>,
}

/// What an [`UpdateTodo`] is in contracts.
pub struct UpdateTodoView {
    pub id: u64,
    pub author: Option<Seq<char>>,
    pub body: Option<Seq<char>>,
    pub done: Option<bool>,
}

impl UpdateTodoView {
    /// Whether the request names at least one field to replace.
    pub open spec fn has_change(self) -> bool {
        self.author is Some || self.body is Some || self.done is Some
    }
}

impl View for UpdateTodo {
    type V = UpdateTodoView;

    open spec fn view(&self) -> UpdateTodoView {
        UpdateTodoView {
            id: self.id,
            author: match self.author {
                Some(text) => Some(text@),
                None => None,
            },
            body: match self.body {
                Some(text) => Some(text@),
                None => None,
            },
            done: self.done,
        }
    }
}

impl UpdateTodo {
    /// Whether the request names at least one field to replace.
    pub fn has_change(&self) -> (changes: bool)
        ensures
            changes == self@.has_change(),
    {
        self.author.is_some() || self.body.is_some() || self.done.is_some()
    }
}

/// The integer that the store keeps for `done`.
pub open spec fn done_flag(done: bool) -> int {
    if done {
        1
    } else {
        0
    }
}

/// The `done` that a stored integer stands for.
pub open spec fn flag_done(flag: int) -> bool {
    flag != 0
}

/// `done` comes back from the store as it went in.
pub proof fn lemma_done_round_trip(done: bool)
    ensures
        flag_done(done_flag(done)) == done,
{
}

/// The text that an update binds for `done`.
pub open spec fn spec_done_text(done: bool) -> Seq<char> {
    if done {
        "1"@
    } else {
        "0"@
    }
}

/// The text that an update binds for `done`.
pub fn done_text(done: bool) -> (text: &'static str)
    ensures
        text@ == spec_done_text(done),
{
    if done {
        "1"
    } else {
        "0"
    }
}

/// The text bound for `done` is the decimal text of the integer that the
/// store keeps for it, and reads back as the same `done`.
pub proof fn lemma_done_text_round_trip(done: bool)
    ensures
        spec_done_text(done) == decimal(done_flag(done) as nat),
        flag_done(decimal_value(spec_done_text(done)) as int) == done,
{
    reveal_strlit("1");
    reveal_strlit("0");
    assert(spec_done_text(done) =~= decimal(done_flag(done) as nat));
    lemma_decimal_value(done_flag(done) as nat);
}

/// A row of the store as its columns hold it: both integers are signed, and
/// `done` is zero or one.
#[derive(Debug, Clone, PartialEq, Eq)]
pub struct StoredRow {
    pub id: i64,
    pub author: String,
    pub body: String,
    pub done: i64,
}

/// What a [`StoredRow`] is in contracts.
pub struct StoredRowView {
    pub id: i64,
    pub author: Seq<char>,
    pub body: Seq<char>,
    pub done: i64,
}

impl StoredRowView {
    /// Whether the row stands for an entry: its id is no negative number.
    pub open spec fn is_entry(self) -> bool {
        self.id >= 0
    }

    /// The entry that the row stands for.
    pub open spec fn entry(self) -> TodoView
        recommends
            self.is_entry(),
    {
        TodoView {
            id: self.id as u64,
            author: self.author,
            body: self.body,
            done: flag_done(self.done as int),
        }
    }
}

impl View for StoredRow {
    type V = StoredRowView;

    open spec fn view(&self) -> StoredRowView {
        StoredRowView { id: self.id, author: self.author@, body: self.body@, done: self.done }
    }
}

impl StoredRow {
    /// The entry that the row stands for; there is none for a negative id.
    pub fn to_todo(&self) -> (todo: Option<Todo>)
        ensures
            todo is Some <==> self@.is_entry(),
            todo matches Some(t) ==> t@ == self@.entry(),
    {
        if self.id < 0 {
            None
        } else {
            Some(
                Todo {
                    id: self.id as u64,
                    author: self.author.clone(),
                    body: self.body.clone(),
                    done: self.done != 0,
                },
            )
        }
    }
}

/// The views of a list of rows, in the same order.
pub open spec fn row_views(rows: Seq<StoredRow>) -> Seq<StoredRowView> {
    rows.map_values(|r: StoredRow| r@)
}

/// Whether every row of a list stands for an entry.
pub open spec fn all_entries(rows: Seq<StoredRowView>) -> bool {
    forall|i: int| 0 <= i < rows.len() ==> (#[trigger] rows[i]).is_entry()
}

/// The entries that a list of rows stands for, in the same order.
pub open spec fn entries(rows: Seq<StoredRowView>) -> Seq<TodoView>
    recommends
        all_entries(rows),
{
    rows.map_values(|r: StoredRowView| r.entry())
}

/// Turns the rows of a listing into entries, keeping their order. One row
/// that stands for no entry fails the whole listing.
pub fn todos_from_rows(rows: &Vec<StoredRow>) -> (todos: Option<Vec<Todo>>)
    ensures
        todos is Some <==> all_entries(row_views(rows@)),
        todos matches Some(list) ==> todo_views(list@) == entries(row_views(rows@)),
{
    let mut list: Vec<Todo> = Vec::new();
    let mut i: usize = 0;
    while i < rows.len()
        invariant
            i <= rows.len(),
            list@.len() == i,
            forall|j: int| 0 <= j < i ==> (#[trigger] rows@[j])@.is_entry(),
            forall|j: int| 0 <= j < i ==> (#[trigger] list@[j])@ == rows@[j]@.entry(),
        decreases rows.len() - i,
    {
        match rows[i].to_todo() {
            Some(todo) => {
                list.push(todo);
            },
            None => {
                assert(!(row_views(rows@)[i as int]).is_entry());
                return None;
            },
        }
        i += 1;
    }
    assert(todo_views(list@) =~= entries(row_views(rows@)));
    Some(list)
}

} // verus!
