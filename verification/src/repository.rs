//! The repository: one statement per operation on the to-do resource, and the operations
//! themselves on a store.

use vstd::prelude::*;
use crate::error::{error_of, failure_of, Error, ErrorSpec, StoreError, StoreErrorSpec};
use crate::store::{plain_view, row_view, rows_view, Store};
use crate::todo::{CreateTodo, Todo, TodoSpec, UpdateTodo};

verus! {

/// A value bound to a placeholder of a statement.
#[derive(Debug)]
pub enum Param {
    Integer(i64),
    Text(String),
    Boolean(bool),
}

/// The mathematical content of a [`Param`].
pub ghost enum ParamSpec {
    Integer(i64),
    Text(Seq<char>),
    Boolean(bool),
}

impl View for Param {
    type V = ParamSpec;

    open spec fn view(&self) -> ParamSpec {
        match *self {
            Param::Integer(value) => ParamSpec::Integer(value),
            Param::Text(value) => ParamSpec::Text(value@),
            Param::Boolean(value) => ParamSpec::Boolean(value),
        }
    }
}

/// How many rows the sender of a statement awaits.
#[derive(Clone, Copy, Debug, PartialEq, Eq, Structural)]
pub enum Fetch {
    /// All rows that the statement yields.
    All,
    /// Exactly one row; none is a failure.
    One,
    /// No row.
    Nothing,
}

/// A statement for a relational store: its text, in which each `?` stands for a value, the
/// values in the order of their placeholders, and what the sender awaits. The text never
/// holds a value.
#[derive(Debug)]
pub struct Statement {
    sql: &'static str,
    params: Vec<Param>,
    fetch: Fetch,
}

/// The mathematical content of a [`Statement`].
pub ghost struct StatementSpec {
    pub sql: Seq<char>,
    pub params: Seq<ParamSpec>,
    pub fetch: Fetch,
}

impl StatementSpec {
    /// Creates the table, unless it is there.
    pub open spec fn migrate() -> StatementSpec {
        StatementSpec {
            sql: "CREATE TABLE IF NOT EXISTS todos (id INTEGER PRIMARY KEY AUTOINCREMENT NOT NULL, body TEXT NOT NULL, completed BOOLEAN NOT NULL DEFAULT 0, created_at DATETIME NOT NULL DEFAULT CURRENT_TIMESTAMP, updated_at DATETIME NOT NULL DEFAULT CURRENT_TIMESTAMP)"@,
            params: seq![],
            fetch: Fetch::Nothing,
        }
    }

    /// The trivial statement, which tells whether the store can be reached.
    pub open spec fn ping() -> StatementSpec {
        StatementSpec { sql: "SELECT 1"@, params: seq![], fetch: Fetch::Nothing }
    }

    /// All rows, in ascending order of identifier.
    pub open spec fn list() -> StatementSpec {
        StatementSpec { sql: "SELECT * FROM todos ORDER BY id"@, params: seq![], fetch: Fetch::All }
    }

    pub open spec fn read(id: i64) -> StatementSpec {
        StatementSpec {
            sql: "SELECT * FROM todos WHERE id = ?"@,
            params: seq![ParamSpec::Integer(id)],
            fetch: Fetch::One,
        }
    }

    pub open spec fn create(body: Seq<char>) -> StatementSpec {
        StatementSpec {
            sql: "INSERT INTO todos (body) VALUES (?) RETURNING *"@,
            params: seq![ParamSpec::Text(body)],
            fetch: Fetch::One,
        }
    }

    pub open spec fn update(id: i64, body: Seq<char>, completed: bool) -> StatementSpec {
        StatementSpec {
            sql: "UPDATE todos SET body = ?, completed = ?, updated_at = datetime('now') WHERE id = ? RETURNING *"@,
            params: seq![
                ParamSpec::Text(body),
                ParamSpec::Boolean(completed),
                ParamSpec::Integer(id),
            ],
            fetch: Fetch::One,
        }
    }

    pub open spec fn delete(id: i64) -> StatementSpec {
        StatementSpec {
            sql: "DELETE FROM todos WHERE id = ?"@,
            params: seq![ParamSpec::Integer(id)],
            fetch: Fetch::Nothing,
        }
    }
}

impl View for Statement {
    type V = StatementSpec;

    closed spec fn view(&self) -> StatementSpec {
        StatementSpec {
            sql: self.sql@,
            params: Seq::new(self.params@.len(), |i: int| self.params@[i]@),
            fetch: self.fetch,
        }
    }
}

impl Statement {
    /// The statement that creates the table, unless it is there.
    pub fn migrate() -> (statement: Statement)
        ensures
            statement@ == StatementSpec::migrate(),
    {
        let statement = Statement {
            sql: "CREATE TABLE IF NOT EXISTS todos (id INTEGER PRIMARY KEY AUTOINCREMENT NOT NULL, body TEXT NOT NULL, completed BOOLEAN NOT NULL DEFAULT 0, created_at DATETIME NOT NULL DEFAULT CURRENT_TIMESTAMP, updated_at DATETIME NOT NULL DEFAULT CURRENT_TIMESTAMP)",
            params: Vec::new(),
            fetch: Fetch::Nothing,
        };
        assert(statement@.params =~= seq![]);
        statement
    }

    /// The trivial statement.
    pub fn ping() -> (statement: Statement)
        ensures
            statement@ == StatementSpec::ping(),
    {
        let statement = Statement { sql: "SELECT 1", params: Vec::new(), fetch: Fetch::Nothing };
        assert(statement@.params =~= seq![]);
        statement
    }

    /// The statement of [`Todo::list`].
    pub fn list() -> (statement: Statement)
        ensures
            statement@ == StatementSpec::list(),
    {
        let statement = Statement {
            sql: "SELECT * FROM todos ORDER BY id",
            params: Vec::new(),
            fetch: Fetch::All,
        };
        assert(statement@.params =~= seq![]);
        statement
    }

    /// The statement of [`Todo::read`].
    pub fn read(id: i64) -> (statement: Statement)
        ensures
            statement@ == StatementSpec::read(id),
    {
        let mut params: Vec<Param> = Vec::new();
        params.push(Param::Integer(id));
        let statement = Statement {
            sql: "SELECT * FROM todos WHERE id = ?",
            params,
            fetch: Fetch::One,
        };
        assert(statement@.params =~= seq![ParamSpec::Integer(id)]);
        statement
    }

    /// The statement of [`Todo::create`].
    pub fn create(new_todo: &CreateTodo) -> (statement: Statement)
        ensures
            statement@ == StatementSpec::create(new_todo@),
    {
        let mut params: Vec<Param> = Vec::new();
        params.push(Param::Text(String::from_str(new_todo.body())));
        let statement = Statement {
            sql: "INSERT INTO todos (body) VALUES (?) RETURNING *",
            params,
            fetch: Fetch::One,
        };
        assert(statement@.params =~= seq![ParamSpec::Text(new_todo@)]);
        statement
    }

    /// The statement of [`Todo::update`].
    pub fn update(id: i64, update_todo: &UpdateTodo) -> (statement: Statement)
        ensures
            statement@ == StatementSpec::update(id, update_todo@.0, update_todo@.1),
    {
        let mut params: Vec<Param> = Vec::new();
        params.push(Param::Text(String::from_str(update_todo.body())));
        params.push(Param::Boolean(update_todo.completed()));
        params.push(Param::Integer(id));
        let statement = Statement {
            sql: "UPDATE todos SET body = ?, completed = ?, updated_at = datetime('now') WHERE id = ? RETURNING *",
            params,
            fetch: Fetch::One,
        };
        assert(statement@.params =~= seq![
            ParamSpec::Text(update_todo@.0),
            ParamSpec::Boolean(update_todo@.1),
            ParamSpec::Integer(id),
        ]);
        statement
    }

    /// The statement of [`Todo::delete`].
    pub fn delete(id: i64) -> (statement: Statement)
        ensures
            statement@ == StatementSpec::delete(id),
    {
        let mut params: Vec<Param> = Vec::new();
        params.push(Param::Integer(id));
        let statement = Statement {
            sql: "DELETE FROM todos WHERE id = ?",
            params,
            fetch: Fetch::Nothing,
        };
        assert(statement@.params =~= seq![ParamSpec::Integer(id)]);
        statement
    }

    /// The text, with a `?` for each value.
    pub fn sql(&self) -> (sql: &'static str)
        ensures
            sql@ == self@.sql,
    {
        self.sql
    }

    /// The values, in the order of their placeholders.
    pub fn params(&self) -> (params: &Vec<Param>)
        ensures
            params@.len() == self@.params.len(),
            forall|i: int| 0 <= i < params@.len() ==> (#[trigger] params@[i])@ == self@.params[i],
    {
        &self.params
    }

    /// What the sender awaits.
    pub fn fetch(&self) -> (fetch: Fetch)
        ensures
            fetch == self@.fetch,
    {
        self.fetch
    }
}

/// What the repository makes of an answer of the store where a row was asked for by its
/// identifier: the absence of the row becomes `NotFound`, every other failure a failure of
/// the store, and a success stays.
pub open spec fn settled<T>(answer: Result<T, StoreErrorSpec>) -> Result<T, ErrorSpec> {
    match answer {
        Ok(value) => Ok(value),
        Err(failure) => Err(error_of(failure)),
    }
}

/// What the repository makes of an answer of the store where no row was asked for by its
/// identifier: every failure becomes a failure of the store, and a success stays.
pub open spec fn surfaced<T>(answer: Result<T, StoreErrorSpec>) -> Result<T, ErrorSpec> {
    match answer {
        Ok(value) => Ok(value),
        Err(failure) => Err(failure_of(failure)),
    }
}

/// The one row that was awaited: the first of the rows that came, and the failure of a
/// statement that found no row where none came.
pub open spec fn awaited_row(answer: Result<Seq<TodoSpec>, StoreErrorSpec>) -> Result<
    TodoSpec,
    StoreErrorSpec,
> {
    match answer {
        Ok(rows) => if rows.len() > 0 {
            Ok(rows[0])
        } else {
            Err(StoreErrorSpec::RowNotFound)
        },
        Err(failure) => Err(failure),
    }
}

/// Whether nothing failed, whatever rows came.
pub open spec fn awaited_nothing(answer: Result<Seq<TodoSpec>, StoreErrorSpec>) -> Result<
    (),
    StoreErrorSpec,
> {
    match answer {
        Ok(_) => Ok(()),
        Err(failure) => Err(failure),
    }
}

/// Turns the failure of a store into the error shown for it where a row was asked for by its
/// identifier, and leaves a success as it is.
pub fn settle<T>(answer: Result<T, StoreError>) -> (outcome: Result<T, Error>)
    ensures
        answer matches Ok(value) ==> outcome == Ok::<T, Error>(value),
        answer matches Err(failure) ==> outcome matches Err(error) && error@ == error_of(failure@),
{
    match answer {
        Ok(value) => Ok(value),
        Err(failure) => Err(Error::from(failure)),
    }
}

/// Turns the failure of a store into the error shown for it where no row was asked for by
/// its identifier, and leaves a success as it is.
pub fn surface<T>(answer: Result<T, StoreError>) -> (outcome: Result<T, Error>)
    ensures
        answer matches Ok(value) ==> outcome == Ok::<T, Error>(value),
        answer matches Err(failure) ==> outcome matches Err(error) && error@ == failure_of(
            failure@,
        ),
{
    match answer {
        Ok(value) => Ok(value),
        Err(failure) => Err(Error::store_failure(failure)),
    }
}

/// Takes the one awaited row out of the rows that came.
pub fn first_row(answer: Result<Vec<Todo>, StoreError>) -> (row: Result<Todo, StoreError>)
    ensures
        row_view(row) == awaited_row(rows_view(answer)),
{
    match answer {
        Ok(rows) => {
            let mut rows = rows;
            if rows.len() > 0 {
                Ok(rows.remove(0))
            } else {
                Err(StoreError::RowNotFound)
            }
        },
        Err(failure) => Err(failure),
    }
}

/// Keeps of an answer only whether it is a failure.
pub fn no_row(answer: Result<Vec<Todo>, StoreError>) -> (done: Result<(), StoreError>)
    ensures
        plain_view(done) == awaited_nothing(rows_view(answer)),
{
    match answer {
        Ok(_) => Ok(()),
        Err(failure) => Err(failure),
    }
}

impl Todo {
    /// All entries, in ascending order of identifier.
    pub fn list(store: &Store) -> (outcome: Result<Vec<Todo>, Error>)
        ensures
            rows_view(outcome) == surfaced(store@.select_all()),
    {
        surface(store.select_all())
    }

    /// The entry with this identifier; `NotFound` where there is none.
    pub fn read(store: &Store, id: i64) -> (outcome: Result<Todo, Error>)
        requires
            store@.wf(),
        ensures
            row_view(outcome) == settled(store@.select(id)),
    {
        settle(store.select(id))
    }

    /// Adds an entry with the text of `new_todo`, not completed, created and updated at the
    /// store's present time, under the identifier that follows the last one handed out.
    pub fn create(store: &mut Store, new_todo: CreateTodo) -> (outcome: Result<Todo, Error>)
        requires
            old(store)@.wf(),
        ensures
            row_view(outcome) == surfaced(old(store)@.insert(new_todo@)),
            final(store)@ == old(store)@.after_insert(new_todo@),
            final(store)@.wf(),
    {
        surface(store.insert(new_todo.body()))
    }

    /// Replaces text and completion of the entry with this identifier and sets its time of
    /// update to the store's present time; `NotFound` where there is no such entry.
    pub fn update(store: &mut Store, id: i64, update_todo: UpdateTodo) -> (outcome: Result<
        Todo,
        Error,
    >)
        requires
            old(store)@.wf(),
        ensures
            row_view(outcome) == settled(old(store)@.update(id, update_todo@.0, update_todo@.1)),
            final(store)@ == old(store)@.after_update(id, update_todo@.0, update_todo@.1),
            final(store)@.wf(),
    {
        settle(store.update(id, update_todo.body(), update_todo.completed()))
    }

    /// Removes the entry with this identifier. That there was none is no failure.
    pub fn delete(store: &mut Store, id: i64) -> (outcome: Result<(), Error>)
        requires
            old(store)@.wf(),
        ensures
            plain_view(outcome) == surfaced(old(store)@.delete(id)),
            final(store)@ == old(store)@.after_delete(id),
            final(store)@.wf(),
    {
        surface(store.delete(id))
    }
}

} // verus!
