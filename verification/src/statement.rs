//! The SQL statements that the service sends to its store, each with the
//! values bound to its placeholders.
//!
//! A value never becomes part of the statement text: the text holds one `?`
//! for each bound value, and the values travel beside it, in the same order.

use crate::decimal::{decimal, lemma_decimal_injective, to_decimal};
use crate::todo::{
    done_text, spec_done_text, CreateTodo, CreateTodoView, UpdateTodo, UpdateTodoView,
};
use vstd::prelude::*;

verus! {

/// A value bound to one placeholder of a statement.
#[derive(Debug, Clone, PartialEq, Eq)]
pub enum Param {
    Text(String),
    Flag(bool),
}

/// What a [`Param`] is in contracts.
pub enum ParamView {
    Text(Seq<char>),
    Flag(bool),
}

impl View for Param {
    type V = ParamView;

    open spec fn view(&self) -> ParamView {
        match self {
            Param::Text(text) => ParamView::Text(text@),
            Param::Flag(flag) => ParamView::Flag(*flag),
        }
    }
}

/// The views of a list of bound values, in the same order.
pub open spec fn param_views(params: Seq<Param>) -> Seq<ParamView> {
    params.map_values(|p: Param| p@)
}

/// A statement text and the values bound to its placeholders, in the order
/// of the placeholders.
#[derive(Debug, Clone, PartialEq, Eq)]
pub struct Statement {
    pub sql: String,
    pub params: Vec<Param>,
}

/// What a [`Statement`] is in contracts.
pub struct StatementView {
    pub sql: Seq<char>,
    pub params: Seq<ParamView>,
}

impl View for Statement {
    type V = StatementView;

    open spec fn view(&self) -> StatementView {
        StatementView { sql: self.sql@, params: param_views(self.params@) }
    }
}

/// The number of placeholders among the first `k` characters of `sql`. A
/// placeholder is the character `?`: no text of this module holds one inside
/// a quoted string.
pub open spec fn placeholders_before(sql: Seq<char>, k: nat) -> nat
    decreases k,
{
    if k == 0 {
        0
    } else {
        placeholders_before(sql, (k - 1) as nat) + if sql[k - 1] == '?' {
            1nat
        } else {
            0nat
        }
    }
}

/// The number of placeholders in a statement text.
pub open spec fn placeholders(sql: Seq<char>) -> nat {
    placeholders_before(sql, sql.len())
}

impl StatementView {
    /// Whether the statement binds exactly one value to each placeholder.
    pub open spec fn well_formed(self) -> bool {
        placeholders(self.sql) == self.params.len()
    }
}

/// Ensures that the table of entries exists; harmless where it already does.
pub const SCHEMA_SQL: &'static str =
    "CREATE TABLE IF NOT EXISTS todos (id INTEGER PRIMARY KEY AUTOINCREMENT, author TEXT NOT NULL, body TEXT NOT NULL, done INTEGER NOT NULL)";

/// Reads every entry, one row each, with the columns in this order.
pub const LIST_SQL: &'static str = "SELECT id, author, body, done from todos";

/// Inserts an entry; the store assigns its id.
pub const CREATE_SQL: &'static str = "INSERT INTO todos(author, body, done) values (?1, ?2, ?3)";

/// Removes the entry with the bound id, if there is one.
pub const DELETE_SQL: &'static str = "DELETE FROM todos where id = ?";

/// What an update starts with, before its assignments.
pub const UPDATE_HEAD: &'static str = "UPDATE todos SET ";

/// What an update ends with, after its assignments: the id is bound last.
pub const UPDATE_TAIL: &'static str = " WHERE id = ?";

/// What stands between two assignments of an update.
pub const ASSIGNMENT_SEPARATOR: &'static str = ",";

/// A column that an update may replace.
#[derive(Debug, Clone, Copy, PartialEq, Eq)]
pub enum Column {
    Author,
    Body,
    Done,
}

impl Column {
    /// The place of the column in an update: author, then body, then done.
    pub open spec fn rank(self) -> nat {
        match self {
            Column::Author => 0,
            Column::Body => 1,
            Column::Done => 2,
        }
    }

    /// The text that assigns the next bound value to the column.
    pub open spec fn assignment(self) -> Seq<char> {
        match self {
            Column::Author => "author = ?"@,
            Column::Body => "body = ?"@,
            Column::Done => "done = ?"@,
        }
    }

    /// The text that assigns the next bound value to the column.
    pub fn assignment_text(&self) -> (text: &'static str)
        ensures
            text@ == self.assignment(),
    {
        match self {
            Column::Author => "author = ?",
            Column::Body => "body = ?",
            Column::Done => "done = ?",
        }
    }
}

/// A column of an update together with the text bound to it.
#[derive(Debug, Clone, PartialEq, Eq)]
pub struct Assignment {
    pub column: Column,
    pub value: String,
}

/// What an [`Assignment`] is in contracts.
pub struct AssignmentView {
    pub column: Column,
    pub value: Seq<char>,
}

impl View for Assignment {
    type V = AssignmentView;

    open spec fn view(&self) -> AssignmentView {
        AssignmentView { column: self.column, value: self.value@ }
    }
}

/// The views of a list of assignments, in the same order.
pub open spec fn assignment_views(set: Seq<Assignment>) -> Seq<AssignmentView> {
    set.map_values(|a: Assignment| a@)
}

/// The columns of a list of assignments, in the same order.
pub open spec fn columns_of(set: Seq<AssignmentView>) -> Seq<Column> {
    set.map_values(|a: AssignmentView| a.column)
}

/// The bound values of a list of assignments, in the same order.
pub open spec fn values_of(set: Seq<AssignmentView>) -> Seq<ParamView> {
    set.map_values(|a: AssignmentView| ParamView::Text(a.value))
}

impl UpdateTodoView {
    /// Whether the request names a value for `column`.
    pub open spec fn names(self, column: Column) -> bool {
        match column {
            Column::Author => self.author is Some,
            Column::Body => self.body is Some,
            Column::Done => self.done is Some,
        }
    }
}

/// The assignments that a request asks for: one for each field that is
/// present, in the order author, body, done. `done` is bound as the text
/// `1` or `0`.
pub open spec fn assigned(input: UpdateTodoView) -> Seq<AssignmentView> {
    let author = match input.author {
        Some(text) => seq![AssignmentView { column: Column::Author, value: text }],
        None => Seq::empty(),
    };
    let body = match input.body {
        Some(text) => seq![AssignmentView { column: Column::Body, value: text }],
        None => Seq::empty(),
    };
    let done = match input.done {
        Some(flag) => seq![AssignmentView { column: Column::Done, value: spec_done_text(flag) }],
        None => Seq::empty(),
    };
    author + body + done
}

/// The assignments of `columns`, separated by commas.
pub open spec fn set_clause(columns: Seq<Column>) -> Seq<char>
    decreases columns.len(),
{
    if columns.len() == 0 {
        Seq::empty()
    } else if columns.len() == 1 {
        columns[0].assignment()
    } else {
        set_clause(columns.drop_last()) + ASSIGNMENT_SEPARATOR@ + columns.last().assignment()
    }
}

/// The text of the update that assigns `columns`.
pub open spec fn update_sql(columns: Seq<Column>) -> Seq<char> {
    UPDATE_HEAD@ + set_clause(columns) + UPDATE_TAIL@
}

/// The statement that ensures the table of entries exists.
pub open spec fn spec_schema_statement() -> StatementView {
    StatementView { sql: SCHEMA_SQL@, params: Seq::empty() }
}

/// The statement that reads every entry.
pub open spec fn spec_list_statement() -> StatementView {
    StatementView { sql: LIST_SQL@, params: Seq::empty() }
}

/// The statement that inserts an entry, which is not done.
pub open spec fn spec_create_statement(input: CreateTodoView) -> StatementView {
    StatementView {
        sql: CREATE_SQL@,
        params: seq![
            ParamView::Text(input.author),
            ParamView::Text(input.body),
            ParamView::Flag(false),
        ],
    }
}

/// The statement that removes the entry `id`, which is bound as its decimal
/// text.
pub open spec fn spec_delete_statement(id: u64) -> StatementView {
    StatementView { sql: DELETE_SQL@, params: seq![ParamView::Text(decimal(id as nat))] }
}

/// The statement that carries out `set` on the entry `id`: the values of the
/// assignments in their order, then the decimal text of the id.
pub open spec fn spec_render_update(set: Seq<AssignmentView>, id: u64) -> StatementView {
    StatementView {
        sql: update_sql(columns_of(set)),
        params: values_of(set).push(ParamView::Text(decimal(id as nat))),
    }
}

/// The statement that carries out a request for an update.
pub open spec fn spec_update_statement(input: UpdateTodoView) -> StatementView
    recommends
        input.has_change(),
{
    spec_render_update(assigned(input), input.id)
}

/// A text without the character `?` has no placeholder.
proof fn lemma_no_placeholder(sql: Seq<char>, k: nat)
    requires
        k <= sql.len(),
        forall|i: int| 0 <= i < sql.len() ==> sql[i] != '?',
    ensures
        placeholders_before(sql, k) == 0,
    decreases k,
{
    if k > 0 {
        lemma_no_placeholder(sql, (k - 1) as nat);
    }
}

/// Appending a text leaves the count over a prefix as it was.
proof fn lemma_placeholders_prefix(a: Seq<char>, b: Seq<char>, k: nat)
    requires
        k <= a.len(),
    ensures
        placeholders_before(a + b, k) == placeholders_before(a, k),
    decreases k,
{
    if k > 0 {
        lemma_placeholders_prefix(a, b, (k - 1) as nat);
    }
}

/// The placeholders of a text counted up to a place in its second part.
proof fn lemma_placeholders_suffix(a: Seq<char>, b: Seq<char>, k: nat)
    requires
        k <= b.len(),
    ensures
        placeholders_before(a + b, a.len() + k) == placeholders(a) + placeholders_before(b, k),
    decreases k,
{
    if k == 0 {
        lemma_placeholders_prefix(a, b, a.len());
    } else {
        lemma_placeholders_suffix(a, b, (k - 1) as nat);
        assert((a + b)[a.len() + k - 1] == b[k - 1]);
    }
}

/// Two texts put together have the placeholders of both.
pub proof fn lemma_placeholders_concat(a: Seq<char>, b: Seq<char>)
    ensures
        placeholders(a + b) == placeholders(a) + placeholders(b),
{
    lemma_placeholders_suffix(a, b, b.len());
}

/// The schema text has no placeholder.
proof fn lemma_schema_placeholders()
    ensures
        placeholders(SCHEMA_SQL@) == 0,
{
    reveal_strlit("CREATE TABLE IF NOT EXISTS todos (id INTEGER PRIMARY KEY AUTOINCREMENT, author TEXT NOT NULL, body TEXT NOT NULL, done INTEGER NOT NULL)");
    lemma_no_placeholder(SCHEMA_SQL@, SCHEMA_SQL@.len());
}

/// The listing text has no placeholder.
proof fn lemma_list_placeholders()
    ensures
        placeholders(LIST_SQL@) == 0,
{
    reveal_strlit("SELECT id, author, body, done from todos");
    lemma_no_placeholder(LIST_SQL@, LIST_SQL@.len());
}

/// The insertion text has three placeholders.
proof fn lemma_create_placeholders()
    ensures
        placeholders(CREATE_SQL@) == 3,
{
    reveal_strlit("INSERT INTO todos(author, body, done) values (?1, ?2, ?3)");
    reveal_with_fuel(placeholders_before, 60);
}

/// The removal text has one placeholder.
proof fn lemma_delete_placeholders()
    ensures
        placeholders(DELETE_SQL@) == 1,
{
    reveal_strlit("DELETE FROM todos where id = ?");
    reveal_with_fuel(placeholders_before, 32);
}

/// The fixed parts of an update: the tail holds the one placeholder for the
/// id, the head and the separator hold none.
proof fn lemma_update_frame_placeholders()
    ensures
        placeholders(UPDATE_HEAD@) == 0,
        placeholders(UPDATE_TAIL@) == 1,
        placeholders(ASSIGNMENT_SEPARATOR@) == 0,
{
    reveal_strlit("UPDATE todos SET ");
    reveal_strlit(" WHERE id = ?");
    reveal_strlit(",");
    reveal_with_fuel(placeholders_before, 20);
}

/// The assignment of a column holds one placeholder.
proof fn lemma_assignment_placeholder(column: Column)
    ensures
        placeholders(column.assignment()) == 1,
{
    reveal_strlit("author = ?");
    reveal_strlit("body = ?");
    reveal_strlit("done = ?");
    reveal_with_fuel(placeholders_before, 12);
}

/// A list of assignments holds one placeholder for each column.
pub proof fn lemma_set_clause_placeholders(columns: Seq<Column>)
    ensures
        placeholders(set_clause(columns)) == columns.len(),
    decreases columns.len(),
{
    if columns.len() == 0 {
    } else if columns.len() == 1 {
        lemma_assignment_placeholder(columns[0]);
    } else {
        lemma_set_clause_placeholders(columns.drop_last());
        lemma_assignment_placeholder(columns.last());
        lemma_update_frame_placeholders();
        lemma_placeholders_concat(set_clause(columns.drop_last()), ASSIGNMENT_SEPARATOR@);
        lemma_placeholders_concat(
            set_clause(columns.drop_last()) + ASSIGNMENT_SEPARATOR@,
            columns.last().assignment(),
        );
    }
}

/// An update binds exactly one value to each of its placeholders, whatever
/// the assignments are: one for each column, and the id for the last.
pub proof fn lemma_render_update_well_formed(set: Seq<AssignmentView>, id: u64)
    ensures
        spec_render_update(set, id).well_formed(),
{
    let columns = columns_of(set);
    lemma_set_clause_placeholders(columns);
    lemma_update_frame_placeholders();
    lemma_placeholders_concat(UPDATE_HEAD@, set_clause(columns));
    lemma_placeholders_concat(UPDATE_HEAD@ + set_clause(columns), UPDATE_TAIL@);
}

/// An update assigns a column if and only if the request names a value for
/// it: the columns that the request leaves out are not in the statement.
pub proof fn lemma_assigned_columns(input: UpdateTodoView, column: Column)
    ensures
        columns_of(assigned(input)).contains(column) <==> input.names(column),
{
    let set = assigned(input);
    let columns = columns_of(set);
    assert forall|i: int| 0 <= i < columns.len() implies input.names(#[trigger] columns[i]) by {
        assert(columns[i] == set[i].column);
    }
    if input.names(column) {
        let k: int = match column {
            Column::Author => 0,
            Column::Body => if input.author is Some {
                1
            } else {
                0
            },
            Column::Done => set.len() - 1,
        };
        assert(columns[k] == column);
    }
}

/// The columns of an update stand in the order author, body, done, each at
/// most once.
pub proof fn lemma_assigned_in_order(input: UpdateTodoView)
    ensures
        forall|i: int, j: int|
            0 <= i < j < assigned(input).len() ==> #[trigger] assigned(input)[i].column.rank()
                < #[trigger] assigned(input)[j].column.rank(),
{
}

/// The request names at least one field if and only if its update assigns at
/// least one column.
pub proof fn lemma_assigned_empty(input: UpdateTodoView)
    ensures
        assigned(input).len() > 0 <==> input.has_change(),
{
}

/// An update that names only the author assigns only the author: the body
/// and `done` of the entry are not part of the statement.
pub proof fn lemma_update_author_only(id: u64, author: Seq<char>)
    ensures
        spec_update_statement(
            UpdateTodoView { id, author: Some(author), body: None, done: None },
        ) == (StatementView {
            sql: "UPDATE todos SET author = ? WHERE id = ?"@,
            params: seq![ParamView::Text(author), ParamView::Text(decimal(id as nat))],
        }),
{
    let input = UpdateTodoView { id, author: Some(author), body: None, done: None };
    let set = assigned(input);
    assert(set =~= seq![AssignmentView { column: Column::Author, value: author }]);
    assert(columns_of(set) =~= seq![Column::Author]);
    reveal_strlit("UPDATE todos SET ");
    reveal_strlit(" WHERE id = ?");
    reveal_strlit("author = ?");
    reveal_strlit("UPDATE todos SET author = ? WHERE id = ?");
    assert(update_sql(columns_of(set)) =~= "UPDATE todos SET author = ? WHERE id = ?"@);
    assert(values_of(set).push(ParamView::Text(decimal(id as nat))) =~= seq![
        ParamView::Text(author),
        ParamView::Text(decimal(id as nat)),
    ]);
}

/// A removal names one entry: the statements for two ids differ.
pub proof fn lemma_delete_names_one_id(a: u64, b: u64)
    requires
        spec_delete_statement(a) == spec_delete_statement(b),
    ensures
        a == b,
{
    let x = spec_delete_statement(a).params;
    let y = spec_delete_statement(b).params;
    assert(x[0] == y[0]);
    lemma_decimal_injective(a as nat, b as nat);
}

/// An update names one entry: two requests with the same statement have the
/// same id and bind the same values.
pub proof fn lemma_update_names_one_id(a: UpdateTodoView, b: UpdateTodoView)
    requires
        spec_update_statement(a) == spec_update_statement(b),
    ensures
        a.id == b.id,
        values_of(assigned(a)) == values_of(assigned(b)),
{
    let x = spec_update_statement(a).params;
    let y = spec_update_statement(b).params;
    assert(x.len() == y.len());
    assert(x.last() == y.last());
    lemma_decimal_injective(a.id as nat, b.id as nat);
    assert(x.drop_last() =~= values_of(assigned(a)));
    assert(y.drop_last() =~= values_of(assigned(b)));
}

/// The statement that ensures the table of entries exists.
pub fn schema_statement() -> (statement: Statement)
    ensures
        statement@ == spec_schema_statement(),
        statement@.well_formed(),
{
    let statement = Statement { sql: String::from_str(SCHEMA_SQL), params: Vec::new() };
    proof {
        lemma_schema_placeholders();
        assert(statement@.params =~= Seq::empty());
    }
    statement
}

/// The statement that reads every entry.
pub fn list_statement() -> (statement: Statement)
    ensures
        statement@ == spec_list_statement(),
        statement@.well_formed(),
{
    let statement = Statement { sql: String::from_str(LIST_SQL), params: Vec::new() };
    proof {
        lemma_list_placeholders();
        assert(statement@.params =~= Seq::empty());
    }
    statement
}

/// The statement that inserts the entry of `input`, which is not done.
pub fn create_statement(input: CreateTodo) -> (statement: Statement)
    ensures
        statement@ == spec_create_statement(input@),
        statement@.well_formed(),
{
    let mut params: Vec<Param> = Vec::new();
    params.push(Param::Text(input.author));
    params.push(Param::Text(input.body));
    params.push(Param::Flag(false));
    let statement = Statement { sql: String::from_str(CREATE_SQL), params };
    proof {
        lemma_create_placeholders();
        assert(statement@.params =~= spec_create_statement(input@).params);
    }
    statement
}

/// The statement that removes the entry `id`.
pub fn delete_statement(id: u64) -> (statement: Statement)
    ensures
        statement@ == spec_delete_statement(id),
        statement@.well_formed(),
{
    let mut params: Vec<Param> = Vec::new();
    params.push(Param::Text(to_decimal(id)));
    let statement = Statement { sql: String::from_str(DELETE_SQL), params };
    proof {
        lemma_delete_placeholders();
        assert(statement@.params =~= spec_delete_statement(id).params);
    }
    statement
}

/// Lists the assignments that a request asks for: one for each field that
/// is present, in the order author, body, done.
pub fn assignments(input: UpdateTodo) -> (set: Vec<Assignment>)
    ensures
        assignment_views(set@) == assigned(input@),
{
    let ghost view = input@;
    let mut set: Vec<Assignment> = Vec::new();
    match input.author {
        Some(text) => {
            set.push(Assignment { column: Column::Author, value: text });
        },
        None => {},
    }
    match input.body {
        Some(text) => {
            set.push(Assignment { column: Column::Body, value: text });
        },
        None => {},
    }
    match input.done {
        Some(flag) => {
            set.push(Assignment { column: Column::Done, value: String::from_str(done_text(flag)) });
        },
        None => {},
    }
    assert(assignment_views(set@) =~= assigned(view));
    set
}

/// Renders the update that carries out `set` on the entry `id`: the text
/// with one assignment for each column, and the bound values in the same
/// order, followed by the id.
pub fn render_update(set: &Vec<Assignment>, id: u64) -> (statement: Statement)
    ensures
        statement@ == spec_render_update(assignment_views(set@), id),
        statement@.well_formed(),
{
    let ghost views = assignment_views(set@);
    let ghost columns = columns_of(views);
    let mut sql = String::from_str(UPDATE_HEAD);
    let mut params: Vec<Param> = Vec::new();
    let mut i: usize = 0;
    while i < set.len()
        invariant
            i <= set.len(),
            views == assignment_views(set@),
            columns == columns_of(views),
            sql@ == UPDATE_HEAD@ + set_clause(columns.take(i as int)),
            param_views(params@) == values_of(views.take(i as int)),
        decreases set.len() - i,
    {
        if i > 0 {
            sql.append(ASSIGNMENT_SEPARATOR);
        }
        sql.append(set[i].column.assignment_text());
        let ghost bound = params@;
        params.push(Param::Text(set[i].value.clone()));
        proof {
            let before = columns.take(i as int);
            let after = columns.take(i + 1);
            assert(after.drop_last() =~= before);
            assert(after.last() == set@[i as int].column);
            assert(sql@ =~= UPDATE_HEAD@ + set_clause(after));
            assert(views[i as int] == set@[i as int]@);
            assert(param_views(params@) =~= param_views(bound).push(
                ParamView::Text(views[i as int].value),
            ));
            assert(values_of(views.take(i + 1)) =~= values_of(views.take(i as int)).push(
                ParamView::Text(views[i as int].value),
            ));
        }
        i += 1;
    }
    sql.append(UPDATE_TAIL);
    params.push(Param::Text(to_decimal(id)));
    let statement = Statement { sql, params };
    proof {
        assert(columns.take(set.len() as int) =~= columns);
        assert(views.take(set.len() as int) =~= views);
        assert(statement@.params =~= spec_render_update(views, id).params);
        lemma_render_update_well_formed(views, id);
    }
    statement
}

/// Assembles the statement that carries out a request for an update. There
/// is none for a request that names no field: such a request is turned down
/// here, before anything reaches the store.
pub fn update_statement(input: UpdateTodo) -> (statement: Option<Statement>)
    ensures
        statement is Some <==> input@.has_change(),
        statement matches Some(s) ==> s@ == spec_update_statement(input@) && s@.well_formed(),
{
    let id = input.id;
    let ghost request = input@;
    let set = assignments(input);
    proof {
        lemma_assigned_empty(request);
        assert(assignment_views(set@).len() == set@.len());
    }
    if set.len() == 0 {
        None
    } else {
        Some(render_update(&set, id))
    }
}

} // verus!
