//! Trusted boundary to the SQLite storage engine. Every item here either
//! declares a rusqlite type or wraps exactly one call into rusqlite (or,
//! for the row mappers, one prepared query); nothing about the store's
//! reply is assumed beyond its Rust type, since each reply depends on the
//! state of the database.

use vstd::prelude::*;

verus! {

#[verifier::external_type_specification]
#[verifier::external_body]
pub struct ExConnection(rusqlite::Connection);

#[verifier::external_type_specification]
#[verifier::external_body]
pub struct ExRusqliteError(rusqlite::Error);

/// One result row of a task selection, as the store handed it back: a
/// field is present exactly when its column was selected and its value
/// decoded.
pub struct TaskRowData {
    pub id: Option<i64>,
    pub name: Option<String>,
    pub priority: Option<i64>,
    pub status: Option<i64>,
    pub start_time: Option<String>,
    pub end_time: Option<String>,
    pub repeat: Option<String>,
    pub notes: Option<String>,
}

/// One result row of a project selection, under the same rule.
pub struct ProjectRowData {
    pub id: Option<i64>,
    pub name: Option<String>,
    pub start_time: Option<String>,
    pub end_time: Option<String>,
    pub notes: Option<String>,
}

/// Relies on rusqlite::Connection::open: opens (creating if absent) the
/// database file at the path; errs when the underlying SQLite open call
/// fails.
#[verifier::external_body]
pub(crate) fn open_connection(path: &str) -> (r: Result<rusqlite::Connection, rusqlite::Error>) {
    rusqlite::Connection::open(path)
}

/// Relies on rusqlite::Connection::execute: runs one statement and
/// returns the number of rows it changed; errs when the store rejects
/// the statement.
#[verifier::external_body]
pub(crate) fn execute_statement(conn: &rusqlite::Connection, sql: &str) -> (r: Result<
    usize,
    rusqlite::Error,
>) {
    conn.execute(sql, [])
}

/// Relies on rusqlite::Connection::execute_batch: runs each statement of
/// the batch in order, stopping at the first failure.
#[verifier::external_body]
pub(crate) fn execute_batch(conn: &rusqlite::Connection, sql: &str) -> (r: Result<
    (),
    rusqlite::Error,
>) {
    conn.execute_batch(sql)
}

/// Relies on rusqlite::Connection::last_insert_rowid: the rowid of the
/// most recent successful insertion on this connection.
#[verifier::external_body]
pub(crate) fn last_insert_rowid(conn: &rusqlite::Connection) -> (r: i64) {
    conn.last_insert_rowid()
}

/// Relies on rusqlite::Connection::changes: the number of rows changed
/// by the most recently completed statement on this connection.
#[verifier::external_body]
pub(crate) fn changes(conn: &rusqlite::Connection) -> (r: u64) {
    conn.changes()
}

/// Relies on rusqlite::Connection::query_row: runs a single-row query
/// and reads its first column as a count.
#[verifier::external_body]
pub(crate) fn query_count(conn: &rusqlite::Connection, sql: &str) -> (r: Result<
    i64,
    rusqlite::Error,
>) {
    conn.query_row(sql, [], |row| row.get(0))
}

/// Relies on rusqlite::Statement::query_map: runs the selection and
/// reads each row's task columns, leaving absent any field whose column
/// was not selected or whose value failed to decode, and dropping any
/// row the store failed to produce.
#[verifier::external_body]
pub(crate) fn fetch_task_rows(conn: &rusqlite::Connection, sql: &str) -> (r: Result<
    Vec<TaskRowData>,
    rusqlite::Error,
>) {
    let mut stmt = conn.prepare(sql)?;
    let rows = stmt.query_map([], |row| Ok(TaskRowData {
        id: row.get("id").ok(), name: row.get("name").ok(),
        priority: row.get("priority").ok(), status: row.get("status").ok(),
        start_time: row.get("start_time").ok(), end_time: row.get("end_time").ok(),
        repeat: row.get("repeat").ok(), notes: row.get("notes").ok(),
    }))?;
    Ok(rows.filter_map(|r| r.ok()).collect())
}

/// Relies on rusqlite::Statement::query_map, as the task row reader
/// does, for project columns.
#[verifier::external_body]
pub(crate) fn fetch_project_rows(conn: &rusqlite::Connection, sql: &str) -> (r: Result<
    Vec<ProjectRowData>,
    rusqlite::Error,
>) {
    let mut stmt = conn.prepare(sql)?;
    let rows = stmt.query_map([], |row| Ok(ProjectRowData {
        id: row.get("id").ok(), name: row.get("name").ok(),
        start_time: row.get("start_time").ok(), end_time: row.get("end_time").ok(),
        notes: row.get("notes").ok(),
    }))?;
    Ok(rows.filter_map(|r| r.ok()).collect())
}

/// Relies on the Display impl of rusqlite::Error for a human-readable
/// account of a storage failure.
#[verifier::external_body]
pub(crate) fn rusqlite_error_text(e: &rusqlite::Error) -> (r: String) {
    format!("{e}")
}

} // verus!
