//! The SQLite engine, as far as the store uses it.
//!
//! Everything here is believed, not proved: each function hands one call to
//! the `sqlite` crate and says of the result only what holds of every outcome.

use vstd::prelude::*;
use crate::command::{CREATE_TABLE, INSERT_RECORD, SELECT_RANKED};
use crate::error::Fault;
use crate::record::{Cell, CellView};

verus! {

/// A connection of the `sqlite` crate, opaque to the verifier.
#[verifier::external_type_specification]
#[verifier::external_body]
pub struct ExConnection(sqlite::Connection);

/// A prepared statement of the `sqlite` crate, opaque to the verifier.
#[verifier::external_type_specification]
#[verifier::external_body]
pub struct ExStatement<'l>(sqlite::Statement<'l>);

/// An error of the `sqlite` crate, opaque to the verifier.
#[verifier::external_type_specification]
#[verifier::external_body]
pub struct ExError(sqlite::Error);

/// Where a statement stands after a step.
#[derive(Clone, Copy, Debug, PartialEq, Eq, Structural)]
pub enum Step {
    /// A row is ready to be read.
    Row,
    /// The statement has been evaluated to its end.
    Done,
}

/// The path that a connection was opened at.
pub uninterp spec fn location(connection: sqlite::Connection) -> Seq<char>;

/// The values bound to the parameters of a statement, by position; the
/// first parameter has position 1.
pub uninterp spec fn bindings(statement: sqlite::Statement<'_>) -> Map<int, CellView>;

/// The cell that the row a statement stands on holds in the column of a
/// name, where it has been read.
pub uninterp spec fn held(statement: sqlite::Statement<'_>, name: Seq<char>) -> Option<CellView>;

/// What an error of the engine reports: its code and its message.
pub uninterp spec fn report(error: sqlite::Error) -> Fault;

/// The size of a text as the engine takes it: the length in bytes of its
/// UTF-8 encoding.
pub open spec fn text_size(text: Seq<char>) -> nat {
    vstd::utf8::encode_utf8(text).len()
}

/// The largest position and the largest length in bytes that reach the
/// engine unchanged: it takes both as 32-bit signed integers.
pub const ENGINE_LIMIT: usize = 0x7fff_ffff;

/// Calls `sqlite::open`, which opens the database at `path` for reading and
/// writing and creates it if it does not exist. Whether it succeeds depends
/// on the file system; a connection that it returns is one to that path.
#[verifier::external_body]
pub(crate) fn open(path: &str) -> (opened: Result<sqlite::Connection, sqlite::Error>)
    ensures
        opened matches Ok(connection) ==> location(connection) == path@,
{
    sqlite::open(path)
}

/// Calls `sqlite::Connection::execute`, which runs the statements in `sql`
/// and discards any rows. Only the statement that creates the score table
/// is admitted. Nothing is claimed of the result.
#[verifier::external_body]
pub(crate) fn execute(connection: &sqlite::Connection, sql: &str) -> (done: Result<(), sqlite::Error>)
    requires
        sql@ == CREATE_TABLE@,
{
    connection.execute(sql)
}

/// Calls `sqlite::Connection::prepare`, which compiles the first statement
/// in `sql` and records the names of the columns it yields. The crate
/// panics on a column name that is not valid UTF-8, and a table written by
/// another program may have one. So only the two statements of the store
/// are admitted: the insert yields no column, and the select names each of
/// its columns itself. Nothing is claimed of the result.
#[verifier::external_body]
pub(crate) fn prepare<'l>(connection: &'l sqlite::Connection, sql: &str) -> (prepared: Result<
    sqlite::Statement<'l>,
    sqlite::Error,
>)
    requires
        sql@ == INSERT_RECORD@ || sql@ == SELECT_RANKED@,
{
    connection.prepare(sql)
}

/// Calls `sqlite::Statement::bind` with a position and a text, which hands
/// both to `sqlite3_bind_text` and succeeds where that does: the text is
/// then bound to the parameter at that position. Position and length must
/// fit the 32-bit integers the engine takes them as. Which positions the
/// statement has is for the engine to say, so success is not promised.
#[verifier::external_body]
pub(crate) fn bind_text(statement: &mut sqlite::Statement<'_>, position: usize, text: &str) -> (bound: Result<
    (),
    sqlite::Error,
>)
    requires
        1 <= position <= ENGINE_LIMIT,
        text_size(text@) <= ENGINE_LIMIT,
    ensures
        bound is Ok ==> bindings(*final(statement)) == bindings(*old(statement)).insert(
            position as int,
            CellView::Text(text@),
        ),
{
    statement.bind((position, text))
}

/// Calls `sqlite::Statement::bind` with a position and an integer, which
/// hands both to `sqlite3_bind_int64` and succeeds where that does: the
/// integer is then bound to the parameter at that position. The position
/// must fit the 32-bit integer the engine takes it as. Success is not
/// promised.
#[verifier::external_body]
pub(crate) fn bind_integer(statement: &mut sqlite::Statement<'_>, position: usize, number: i64) -> (bound: Result<
    (),
    sqlite::Error,
>)
    requires
        1 <= position <= ENGINE_LIMIT,
    ensures
        bound is Ok ==> bindings(*final(statement)) == bindings(*old(statement)).insert(
            position as int,
            CellView::Integer(number as int),
        ),
{
    statement.bind((position, number))
}

/// Calls `sqlite::Statement::next`, which advances the statement by one
/// step and says whether it then stands on a row or has come to its end.
/// Nothing is claimed of the result.
#[verifier::external_body]
pub(crate) fn step(statement: &mut sqlite::Statement<'_>) -> (stepped: Result<Step, sqlite::Error>) {
    match statement.next() {
        Ok(sqlite::State::Row) => Ok(Step::Row),
        Ok(sqlite::State::Done) => Ok(Step::Done),
        Err(error) => Err(error),
    }
}

/// Calls `sqlite::Statement::read` for a `sqlite::Value`, which reads the
/// cell of the current row in the named column with the storage class the
/// engine reports for it, and answers an unknown column with an error. The
/// value of a floating-point cell is dropped. A cell that was read is the
/// one the row holds in that column; of a failure nothing is claimed, since
/// a read may also fail for want of memory.
#[verifier::external_body]
pub(crate) fn read_cell(statement: &sqlite::Statement<'_>, column: &str) -> (cell: Result<Cell, sqlite::Error>)
    ensures
        cell matches Ok(read) ==> held(*statement, column@) == Some(read@),
{
    match statement.read::<sqlite::Value, _>(column) {
        Ok(sqlite::Value::Null) => Ok(Cell::Null),
        Ok(sqlite::Value::Integer(number)) => Ok(Cell::Integer(number)),
        Ok(sqlite::Value::String(text)) => Ok(Cell::Text(text)),
        Ok(sqlite::Value::Float(_)) => Ok(Cell::Real),
        Ok(sqlite::Value::Binary(bytes)) => Ok(Cell::Blob(bytes)),
        Err(error) => Err(error),
    }
}

/// Takes the public fields of a `sqlite::Error`, its code and its message,
/// out of it: they are what the error reports.
#[verifier::external_body]
pub(crate) fn fault_of(error: sqlite::Error) -> (fault: Fault)
    ensures
        fault == report(error),
{
    Fault { code: error.code, message: error.message }
}

} // verus!
