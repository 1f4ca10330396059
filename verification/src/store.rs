//! The gateway to the store: the one connection to the SQLite database that
//! holds the table of entries, and the four operations on that table.
//!
//! What the database does with a statement is outside of what is proved
//! here. Proved is which statement each operation sends, that a request for
//! an update without any field is turned down before anything is sent, and
//! how the answer of the database becomes the result of the operation.

use crate::statement::{
    create_statement, delete_statement, list_statement, schema_statement,
    spec_create_statement, spec_delete_statement, spec_list_statement, spec_schema_statement,
    spec_update_statement, update_statement, Param, Statement, StatementView,
};
use crate::todo::{
    all_entries, entries, row_views, todo_views, todos_from_rows, CreateTodo, StoredRow, Todo,
    UpdateTodo,
};
use vstd::prelude::*;

verus! {

/// `rusqlite::Connection`, a handle to an open database. Nothing is known of
/// what it holds.
#[verifier::external_type_specification]
#[verifier::external_body]
pub struct ExConnection(rusqlite::Connection);

/// `rusqlite::Error`, the reason for which a call into the database failed.
#[verifier::external_type_specification]
#[verifier::external_body]
pub struct ExError(rusqlite::Error);

/// Why an operation on the store failed.
#[derive(Debug, Clone, Copy, PartialEq, Eq)]
pub enum StoreError {
    /// The database could not be opened or created.
    Open,
    /// The table of entries could not be created.
    Schema,
    /// The database did not carry out a statement.
    Statement,
    /// A row that was read stands for no entry.
    Row,
}

/// Why a request for an update was not carried out.
#[derive(Debug, Clone, Copy, PartialEq, Eq)]
pub enum UpdateError {
    /// The request names no field to replace; nothing was sent to the store.
    NoFields,
    /// The store failed.
    Store(StoreError),
}

/// Calls `rusqlite::Connection::open`, which opens the database file at
/// `path` and creates it where there is none; the path `:memory:` gives a
/// database that lives in memory. Nothing is claimed of the outcome.
#[verifier::external_body]
fn open_connection(path: &str) -> Result<rusqlite::Connection, rusqlite::Error> {
    rusqlite::Connection::open(path)
}

/// Calls `rusqlite::Connection::execute` with the text of `statement` and
/// its bound values, each handed over as the text or boolean that it is.
/// `Ok` holds the number of rows that the database says it changed. Nothing
/// is claimed of the outcome.
#[verifier::external_body]
fn execute(connection: &rusqlite::Connection, statement: &Statement) -> Result<
    usize,
    rusqlite::Error,
> {
    let values = statement.params.iter().map(|param| match param {
        Param::Text(text) => text as &dyn rusqlite::ToSql,
        Param::Flag(flag) => flag as &dyn rusqlite::ToSql,
    });
    connection.execute(statement.sql.as_str(), rusqlite::params_from_iter(values))
}

/// Calls `rusqlite::Connection::prepare` and `rusqlite::Statement::query_map`
/// with the text of `statement` and its bound values, and collects the rows
/// of the answer in the order in which the database gives them. Of each row
/// the first four columns are read with `rusqlite::Row::get`: a signed
/// integer, two texts, a signed integer. One column of another type fails
/// the whole call. Nothing is claimed of the outcome.
#[verifier::external_body]
fn query(connection: &rusqlite::Connection, statement: &Statement) -> Result<
    Vec<StoredRow>,
    rusqlite::Error,
> {
    let values = statement.params.iter().map(|param| match param {
        Param::Text(text) => text as &dyn rusqlite::ToSql,
        Param::Flag(flag) => flag as &dyn rusqlite::ToSql,
    });
    let mut prepared = connection.prepare(statement.sql.as_str())?;
    let rows = prepared.query_map(rusqlite::params_from_iter(values), |row| {
        Ok(StoredRow { id: row.get(0)?, author: row.get(1)?, body: row.get(2)?, done: row.get(3)? })
    })?;
    rows.collect()
}

/// The result of a statement that writes, from the answer of the database:
/// the number of rows that it changed, or the failure.
pub fn written<E>(answer: Result<usize, E>) -> (result: Result<usize, StoreError>)
    ensures
        answer matches Ok(rows) ==> result == Ok::<usize, StoreError>(rows),
        answer is Err ==> result == Err::<usize, StoreError>(StoreError::Statement),
{
    match answer {
        Ok(rows) => Ok(rows),
        Err(_) => Err(StoreError::Statement),
    }
}

/// The result of a listing, from the answer of the database: the entries
/// that the rows stand for, in the order of the rows. The listing fails
/// where the database failed, and where a row stands for no entry.
pub fn listed<E>(answer: Result<Vec<StoredRow>, E>) -> (result: Result<Vec<Todo>, StoreError>)
    ensures
        answer is Err ==> result == Err::<Vec<Todo>, StoreError>(StoreError::Statement),
        answer matches Ok(rows) ==> {
            &&& result is Ok <==> all_entries(row_views(rows@))
            &&& result matches Ok(todos) ==> todo_views(todos@) == entries(row_views(rows@))
            &&& result matches Err(e) ==> e == StoreError::Row
        },
{
    match answer {
        Ok(rows) => match todos_from_rows(&rows) {
            Some(todos) => Ok(todos),
            None => Err(StoreError::Row),
        },
        Err(_) => Err(StoreError::Statement),
    }
}

/// The owner of the connection to the store. Every access to the table of
/// entries goes through one of its operations, and each operation sends at
/// most one statement.
///
/// In contracts a gateway is the list of the statements that were sent over
/// its connection, oldest first.
pub struct Gateway {
    connection: rusqlite::Connection,
    sent: Ghost<Seq<StatementView>>,
}

impl Gateway {
    /// The statements sent over the connection so far, oldest first.
    pub closed spec fn sent(&self) -> Seq<StatementView> {
        self.sent@
    }

    /// Sends a statement that writes.
    fn send(&mut self, statement: &Statement) -> (answer: Result<usize, rusqlite::Error>)
        ensures
            final(self).sent() == old(self).sent().push(statement@),
    {
        let answer = execute(&self.connection, statement);
        self.sent = Ghost(self.sent@.push(statement@));
        answer
    }

    /// Sends a statement that reads.
    fn fetch(&mut self, statement: &Statement) -> (answer: Result<
        Vec<StoredRow>,
        rusqlite::Error,
    >)
        ensures
            final(self).sent() == old(self).sent().push(statement@),
    {
        let answer = query(&self.connection, statement);
        self.sent = Ghost(self.sent@.push(statement@));
        answer
    }

    /// Opens the database at `path`, creating it where there is none, and
    /// ensures that the table of entries exists: a database that already
    /// holds the table is left as it is. The path `:memory:` gives a store
    /// that lives in memory. The one statement sent is that of the schema.
    pub fn open(path: &str) -> (gateway: Result<Gateway, StoreError>)
        ensures
            gateway matches Ok(g) ==> g.sent() == seq![spec_schema_statement()],
            gateway matches Err(e) ==> e == StoreError::Open || e == StoreError::Schema,
    {
        match open_connection(path) {
            Ok(connection) => {
                let mut gateway = Gateway { connection, sent: Ghost(Seq::empty()) };
                let statement = schema_statement();
                match gateway.send(&statement) {
                    Ok(_) => Ok(gateway),
                    Err(_) => Err(StoreError::Schema),
                }
            },
            Err(_) => Err(StoreError::Open),
        }
    }

    /// Reads every entry, in the order in which the store returns them. A
    /// store without entries gives an empty list.
    pub fn list(&mut self) -> (todos: Result<Vec<Todo>, StoreError>)
        ensures
            final(self).sent() == old(self).sent().push(spec_list_statement()),
            todos matches Err(e) ==> e == StoreError::Statement || e == StoreError::Row,
    {
        let statement = list_statement();
        listed(self.fetch(&statement))
    }

    /// Inserts a new entry, which is not done; the store assigns its id.
    /// `Ok` holds the number of rows written.
    pub fn create(&mut self, input: CreateTodo) -> (rows: Result<usize, StoreError>)
        ensures
            final(self).sent() == old(self).sent().push(spec_create_statement(input@)),
            rows matches Err(e) ==> e == StoreError::Statement,
    {
        let statement = create_statement(input);
        written(self.send(&statement))
    }

    /// Removes the entry `id`. That there is no such entry is no failure:
    /// `Ok` holds the number of rows removed.
    pub fn delete(&mut self, id: u64) -> (rows: Result<usize, StoreError>)
        ensures
            final(self).sent() == old(self).sent().push(spec_delete_statement(id)),
            rows matches Err(e) ==> e == StoreError::Statement,
    {
        let statement = delete_statement(id);
        written(self.send(&statement))
    }

    /// Replaces, on the entry `input.id`, each field that `input` names. A
    /// request that names no field is turned down with
    /// [`UpdateError::NoFields`], and nothing is sent to the store. That
    /// there is no such entry is no failure: `Ok` holds the number of rows
    /// changed.
    pub fn update(&mut self, input: UpdateTodo) -> (rows: Result<usize, UpdateError>)
        ensures
            !input@.has_change() ==> {
                &&& rows == Err::<usize, UpdateError>(UpdateError::NoFields)
                &&& final(self).sent() == old(self).sent()
            },
            input@.has_change() ==> {
                &&& final(self).sent() == old(self).sent().push(spec_update_statement(input@))
                &&& rows is Ok || rows == Err::<usize, UpdateError>(
                    UpdateError::Store(StoreError::Statement),
                )
            },
    {
        match update_statement(input) {
            None => Err(UpdateError::NoFields),
            Some(statement) => match written(self.send(&statement)) {
                Ok(rows) => Ok(rows),
                Err(e) => Err(UpdateError::Store(e)),
            },
        }
    }
}

} // verus!
