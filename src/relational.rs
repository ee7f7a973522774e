use vstd::prelude::*;

use crate::repository::RepositoryError;
use crate::todo::{Timestamp, Todo};

verus! {

/// Every stored item, newest first.
pub const SELECT_TODOS: &'static str = "select id, title, added_at, is_complete, completed_at from public.todos order by added_at desc;";

/// The item with the id bound to `$1`, if any.
pub const SELECT_TODO: &'static str = "select id, title, added_at, is_complete, completed_at from public.todos where id = $1 limit 1;";

/// A new row holding every field of an item.
pub const INSERT_TODO: &'static str = "insert into public.todos (id, title, added_at, is_complete, completed_at) values ($1, $2, $3, $4, $5);";

/// Overwrites the mutable fields of the row whose id is bound to `$1`.
pub const UPDATE_TODO: &'static str = "update public.todos set title = $2, is_complete = $3, completed_at = $4 where id = $1;";

/// How the database driver reported a failed statement.
#[derive(Clone, Copy, Debug, PartialEq, Eq, Structural)]
pub enum DatabaseFailure {
    /// The statement would have stored a second row with the same key.
    UniqueViolation,
    /// Any other failure: the connection, the pool, the server.
    Other,
}

/// A value bound to a statement parameter.
#[derive(Debug, PartialEq, Eq)]
pub enum SqlValue {
    Text(String),
    Time(Timestamp),
    Flag(bool),
    OptionalTime(Option<Timestamp>),
}

/// A parameterized statement: its text and the values bound to `$1`, `$2`, ...
#[derive(Debug)]
pub struct Statement {
    pub sql: &'static str,
    pub params: Vec<SqlValue>,
}

/// The statement that lists every item.
pub fn list_statement() -> (r: Statement)
    ensures
        r.sql == SELECT_TODOS,
        r.params@ == Seq::<SqlValue>::empty(),
{
    Statement { sql: SELECT_TODOS, params: Vec::new() }
}

/// The statement that fetches the item with the given id.
pub fn get_statement(todo_id: String) -> (r: Statement)
    ensures
        r.sql == SELECT_TODO,
        r.params@ == seq![SqlValue::Text(todo_id)],
{
    let mut params: Vec<SqlValue> = Vec::new();
    params.push(SqlValue::Text(todo_id));
    Statement { sql: SELECT_TODO, params }
}

/// The statement that stores a new item, every field in its own column.
pub fn insert_statement(todo: Todo) -> (r: Statement)
    ensures
        r.sql == INSERT_TODO,
        r.params@ == seq![
            SqlValue::Text(todo.id),
            SqlValue::Text(todo.title),
            SqlValue::Time(todo.added_at),
            SqlValue::Flag(todo.is_complete),
            SqlValue::OptionalTime(todo.completed_at),
        ],
{
    let mut params: Vec<SqlValue> = Vec::new();
    params.push(SqlValue::Text(todo.id));
    params.push(SqlValue::Text(todo.title));
    params.push(SqlValue::Time(todo.added_at));
    params.push(SqlValue::Flag(todo.is_complete));
    params.push(SqlValue::OptionalTime(todo.completed_at));
    Statement { sql: INSERT_TODO, params }
}

/// The statement that overwrites the mutable fields of the item with the
/// same id; the id and the time it was added are never written.
pub fn update_statement(todo: Todo) -> (r: Statement)
    ensures
        r.sql == UPDATE_TODO,
        r.params@ == seq![
            SqlValue::Text(todo.id),
            SqlValue::Text(todo.title),
            SqlValue::Flag(todo.is_complete),
            SqlValue::OptionalTime(todo.completed_at),
        ],
{
    let mut params: Vec<SqlValue> = Vec::new();
    params.push(SqlValue::Text(todo.id));
    params.push(SqlValue::Text(todo.title));
    params.push(SqlValue::Flag(todo.is_complete));
    params.push(SqlValue::OptionalTime(todo.completed_at));
    Statement { sql: UPDATE_TODO, params }
}

/// The answer to a query: what it read, or `Unavailable` when the driver
/// failed.
pub open spec fn read_result<T>(result: Result<T, DatabaseFailure>) -> Result<T, RepositoryError> {
    match result {
        Ok(v) => Ok(v),
        Err(_) => Err(RepositoryError::Unavailable),
    }
}

/// The answer to an insert, from the number of rows it stored: exactly one
/// is success; any other count, or a uniqueness violation, is a conflict;
/// any other failure leaves the store unavailable.
pub open spec fn insert_result(result: Result<u64, DatabaseFailure>) -> Result<(), RepositoryError> {
    match result {
        Ok(rows) => if rows == 1 {
            Ok(())
        } else {
            Err(RepositoryError::Conflict)
        },
        Err(DatabaseFailure::UniqueViolation) => Err(RepositoryError::Conflict),
        Err(DatabaseFailure::Other) => Err(RepositoryError::Unavailable),
    }
}

/// The answer to an update, from the number of rows it changed: none means
/// no item has the id; exactly one is success; more, or any failure, means
/// the store is not in a state to be trusted.
pub open spec fn update_result(result: Result<u64, DatabaseFailure>) -> Result<(), RepositoryError> {
    match result {
        Ok(rows) => if rows == 0 {
            Err(RepositoryError::NotFound)
        } else if rows == 1 {
            Ok(())
        } else {
            Err(RepositoryError::Unavailable)
        },
        Err(_) => Err(RepositoryError::Unavailable),
    }
}

/// Turns what a query read, or how it failed, into the repository's answer.
pub fn read_outcome<T>(result: Result<T, DatabaseFailure>) -> (r: Result<T, RepositoryError>)
    ensures
        r == read_result(result),
{
    match result {
        Ok(v) => Ok(v),
        Err(_) => Err(RepositoryError::Unavailable),
    }
}

/// Turns the row count of an insert, or how it failed, into the
/// repository's answer.
pub fn insert_outcome(result: Result<u64, DatabaseFailure>) -> (r: Result<(), RepositoryError>)
    ensures
        r == insert_result(result),
{
    match result {
        Ok(rows) => {
            if rows == 1 {
                Ok(())
            } else {
                Err(RepositoryError::Conflict)
            }
        },
        Err(DatabaseFailure::UniqueViolation) => Err(RepositoryError::Conflict),
        Err(DatabaseFailure::Other) => Err(RepositoryError::Unavailable),
    }
}

/// Turns the row count of an update, or how it failed, into the
/// repository's answer.
pub fn update_outcome(result: Result<u64, DatabaseFailure>) -> (r: Result<(), RepositoryError>)
    ensures
        r == update_result(result),
{
    match result {
        Ok(rows) => {
            if rows == 0 {
                Err(RepositoryError::NotFound)
            } else if rows == 1 {
                Ok(())
            } else {
                Err(RepositoryError::Unavailable)
            }
        },
        Err(_) => Err(RepositoryError::Unavailable),
    }
}

} // verus!
