//! The calls into `rusqlite`. What these functions promise is taken on
//! trust from that crate; everything else in the library is proved.

use vstd::prelude::*;
use crate::db::value::{SqlParam, SqlValue};

verus! {

/// `rusqlite::Connection`: held and handed on, never looked into.
#[verifier::external_type_specification]
#[verifier::external_body]
pub struct ExConnection(rusqlite::Connection);

/// `rusqlite::Error`: only its message is ever taken from it.
#[verifier::external_type_specification]
#[verifier::external_body]
pub struct ExSqlError(rusqlite::Error);

/// `rusqlite::types::Value`: what is bound to a statement and read from a
/// row, before it is turned into a value of this library.
#[verifier::external_type_specification]
#[verifier::external_body]
pub struct ExSqlCell(rusqlite::types::Value);

/// `rusqlite::Connection::open_with_flags`, with the flags that
/// `rusqlite::Connection::open` uses, but for the flag that has a missing
/// file created, which is set as `create` says. What comes back depends
/// on the file, so nothing is claimed of it.
#[verifier::external_body]
pub(crate) fn open_connection(path: &str, create: bool) -> (r: Result<
    rusqlite::Connection,
    rusqlite::Error,
>) {
    let mut flags = rusqlite::OpenFlags::default();
    flags.set(rusqlite::OpenFlags::SQLITE_OPEN_CREATE, create);
    rusqlite::Connection::open_with_flags(path, flags)
}

/// `rusqlite::Connection::execute_batch`: runs the statements of `sql`,
/// which take no parameters, one after the other. Nothing is claimed of
/// the outcome.
#[verifier::external_body]
pub(crate) fn execute_batch(conn: &rusqlite::Connection, sql: &str) -> (r: Result<
    (),
    rusqlite::Error,
>) {
    conn.execute_batch(sql)
}

/// `rusqlite::Connection::execute`: runs the one statement `sql` with
/// `params` bound to its `?` in order, and returns how many rows it
/// changed. Nothing is claimed of the outcome.
#[verifier::external_body]
pub(crate) fn execute(conn: &rusqlite::Connection, sql: &str, params: &Vec<SqlParam>) -> (r: Result<
    usize,
    rusqlite::Error,
>) {
    conn.execute(sql, rusqlite::params_from_iter(params.iter().map(bound_value)))
}

/// `rusqlite::Connection::prepare`, `Statement::query`, `Rows::next` and
/// `Row::get`: runs the query `sql` with `params` bound to its `?` in
/// order and returns every row it yields, each as the cells of its
/// columns from left to right. The first failure of any of these calls is
/// returned. Nothing is claimed of the rows.
#[verifier::external_body]
pub(crate) fn query_rows(conn: &rusqlite::Connection, sql: &str, params: &Vec<SqlParam>) -> (r:
    Result<Vec<Vec<SqlValue>>, rusqlite::Error>) {
    let mut stmt = conn.prepare(sql)?;
    let width = stmt.column_count();
    let mut rows = stmt.query(rusqlite::params_from_iter(params.iter().map(bound_value)))?;
    let mut out = Vec::new();
    while let Some(row) = rows.next()? {
        let mut cells = Vec::with_capacity(width);
        for i in 0..width {
            cells.push(cell_value(row.get(i)?));
        }
        out.push(cells);
    }
    Ok(out)
}

/// The `rusqlite::types::Value` that stands for `p` when it is bound.
#[verifier::external_body]
fn bound_value(p: &SqlParam) -> rusqlite::types::Value {
    match p {
        SqlParam::Integer(i) => rusqlite::types::Value::Integer(*i),
        SqlParam::Text(s) => rusqlite::types::Value::Text(s.clone()),
    }
}

/// The cell that a `rusqlite::types::Value` read from a row stands for,
/// variant by variant.
#[verifier::external_body]
fn cell_value(v: rusqlite::types::Value) -> SqlValue {
    match v {
        rusqlite::types::Value::Null => SqlValue::Null,
        rusqlite::types::Value::Integer(i) => SqlValue::Integer(i),
        rusqlite::types::Value::Real(_) => SqlValue::Real,
        rusqlite::types::Value::Text(s) => SqlValue::Text(s),
        rusqlite::types::Value::Blob(b) => SqlValue::Blob(b),
    }
}

/// The message of a `rusqlite::Error`, as its `Display` gives it.
#[verifier::external_body]
pub(crate) fn error_text(e: &rusqlite::Error) -> (text: String) {
    e.to_string()
}

} // verus!
