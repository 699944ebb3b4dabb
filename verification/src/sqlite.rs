//! The boundary to SQLite: the types of `rusqlite` and of std that the store handles,
//! and one function for each call into it. None of these functions is
//! verified, and none promises anything of what the database answers: what
//! comes back depends on the database as it is at the time of the call.

use crate::row::StoredRow;
use crate::statement::Statement;
use rusqlite::Connection;
use rusqlite::OptionalExtension;
use rusqlite::ToSql;
use rusqlite::Transaction;
use std::path::Path;
use vstd::prelude::*;

verus! {

/// `rusqlite::Connection`, an open database.
#[verifier::external_type_specification]
#[verifier::external_body]
pub struct ExConnection(rusqlite::Connection);

/// `rusqlite::Transaction`, a transaction that is rolled back when it goes
/// out of scope without having been committed.
#[verifier::external_type_specification]
#[verifier::external_body]
pub struct ExTransaction<'conn>(rusqlite::Transaction<'conn>);

/// `rusqlite::Error`, what a call into SQLite reports when it fails.
#[verifier::external_type_specification]
#[verifier::external_body]
pub struct ExError(rusqlite::Error);

/// `std::path::Path`, the path of a file.
#[verifier::external_type_specification]
#[verifier::external_body]
pub struct ExPath(std::path::Path);

/// `Connection::open`: opens the database file at `path`, and creates it
/// where there is none.
#[verifier::external_body]
pub(crate) fn open(path: &Path) -> Result<Connection, rusqlite::Error> {
    Connection::open(path)
}

/// `Connection::query_row` on a statement without parameters: the first
/// column of the first row, read as an unsigned number.
#[verifier::external_body]
pub(crate) fn query_number(db: &Connection, sql: &str) -> Result<u32, rusqlite::Error> {
    db.query_row(sql, [], |row| row.get(0))
}

/// `Connection::pragma_update` with a text as the new value of the pragma
/// that is named first.
#[verifier::external_body]
pub(crate) fn set_pragma_text(db: &Connection, pragma: (&str, &str)) -> Result<
    (),
    rusqlite::Error,
> {
    db.pragma_update(None, pragma.0, pragma.1)
}

/// `Connection::pragma_update` with a number as the new value of the
/// pragma that is named first.
#[verifier::external_body]
pub(crate) fn set_pragma_number(db: &Connection, pragma: (&str, u32)) -> Result<
    (),
    rusqlite::Error,
> {
    db.pragma_update(None, pragma.0, pragma.1)
}

/// `Connection::transaction`: begins a transaction on the connection.
#[verifier::external_body]
pub(crate) fn begin<'conn>(db: &'conn mut Connection) -> Result<
    Transaction<'conn>,
    rusqlite::Error,
> {
    db.transaction()
}

/// `Deref::deref` of a transaction: the connection that it runs on.
#[verifier::external_body]
pub(crate) fn connection_of<'a>(transaction: &'a Transaction<'_>) -> &'a Connection {
    transaction
}

/// `Transaction::commit`: ends the transaction and keeps what it did.
#[verifier::external_body]
pub(crate) fn commit(transaction: Transaction<'_>) -> Result<(), rusqlite::Error> {
    transaction.commit()
}

/// `Connection::execute_batch`: runs the statements of `sql` one after the
/// other.
#[verifier::external_body]
pub(crate) fn execute_batch(db: &Connection, sql: &str) -> Result<(), rusqlite::Error> {
    db.execute_batch(sql)
}

/// `Connection::execute`: runs one statement with its values bound by
/// name, and gives the number of rows that it changed. The statement is no
/// query: it names no column to read.
#[verifier::external_body]
pub(crate) fn execute(db: &Connection, statement: &Statement<'_>) -> Result<
    usize,
    rusqlite::Error,
>
    requires
        statement@.columns.len() == 0,
{
    let texts = statement.texts.iter().map(|(name, value)| (*name, value as &dyn ToSql));
    let integers = statement.integers.iter().map(|(name, value)| (*name, value as &dyn ToSql));
    let bound: Vec<(&str, &dyn ToSql)> = texts.chain(integers).collect();
    db.execute(statement.sql, bound.as_slice())
}

/// `Connection::prepare` and `Statement::query_map`: runs one query with
/// its texts bound by name, and gives its rows in the order in which
/// SQLite hands them out. Each row is read from the four columns that the
/// statement names: the first is the book, the second the author, the
/// third the reading state, the fourth the starred number. The statement
/// binds no integer.
#[verifier::external_body]
pub(crate) fn query_rows(db: &Connection, statement: &Statement<'_>) -> Result<
    Vec<StoredRow>,
    rusqlite::Error,
>
    requires
        statement@.integers.len() == 0,
        statement@.columns.len() == 4,
{
    let texts = statement.texts.iter().map(|(name, value)| (*name, value as &dyn ToSql));
    let bound: Vec<(&str, &dyn ToSql)> = texts.collect();
    let read = &statement.columns;
    let mut prepared = db.prepare(statement.sql)?;
    let rows = prepared.query_map(bound.as_slice(), |row| {
        let (book, author) = (row.get(read[0])?, row.get(read[1])?);
        let (read_state, starred) = (row.get(read[2])?, row.get(read[3])?);
        Ok(StoredRow { book, author, read_state, starred })
    })?;
    rows.collect()
}

/// `Connection::query_row` and `OptionalExtension::optional`: runs one
/// query with its texts bound by name, and gives the one column that the
/// statement names, of its first row, as a text, or nothing where it has
/// no row. The statement binds no integer.
#[verifier::external_body]
pub(crate) fn query_text(db: &Connection, statement: &Statement<'_>) -> Result<
    Option<String>,
    rusqlite::Error,
>
    requires
        statement@.integers.len() == 0,
        statement@.columns.len() == 1,
{
    let texts = statement.texts.iter().map(|(name, value)| (*name, value as &dyn ToSql));
    let bound: Vec<(&str, &dyn ToSql)> = texts.collect();
    db.query_row(statement.sql, bound.as_slice(), |row| row.get(statement.columns[0])).optional()
}

/// `Connection::query_row` and `OptionalExtension::optional`: runs one
/// query with its texts bound by name, and gives the one column that the
/// statement names, of its first row, as a number, or nothing where it has
/// no row. The statement binds no integer.
#[verifier::external_body]
pub(crate) fn query_integer(db: &Connection, statement: &Statement<'_>) -> Result<
    Option<i32>,
    rusqlite::Error,
>
    requires
        statement@.integers.len() == 0,
        statement@.columns.len() == 1,
{
    let texts = statement.texts.iter().map(|(name, value)| (*name, value as &dyn ToSql));
    let bound: Vec<(&str, &dyn ToSql)> = texts.collect();
    db.query_row(statement.sql, bound.as_slice(), |row| row.get(statement.columns[0])).optional()
}

} // verus!
