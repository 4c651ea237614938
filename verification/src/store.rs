//! The SQLite store underneath the archive: its two tables, the statements
//! that are run against it, and the calls that run them.

use vstd::prelude::*;

verus! {

/// An open SQLite connection.
#[verifier::external_type_specification]
#[verifier::external_body]
pub struct ExConnection(rusqlite::Connection);

/// A transaction in progress on a connection.
#[verifier::external_type_specification]
#[verifier::external_body]
pub struct ExTransaction<'conn>(rusqlite::Transaction<'conn>);

/// Whatever SQLite or its binding reports as failure.
#[verifier::external_type_specification]
#[verifier::external_body]
pub struct ExSqlError(rusqlite::Error);

/// Creates the event log unless it exists.
pub const SQL_CREATE_EVENTS: &'static str = "CREATE TABLE IF NOT EXISTS events (
                id INTEGER PRIMARY KEY,
                chat_id INTEGER,
                message_id INTEGER NOT NULL,
                date INTEGER,
                type TEXT NOT NULL,
                serialized BLOB,
                media_rel_path TEXT
            )";

/// Creates the chats table unless it exists.
pub const SQL_CREATE_CHATS: &'static str = "CREATE TABLE IF NOT EXISTS chats (
                chat_id INTEGER PRIMARY KEY,
                serialized BLOB NOT NULL
            )";

/// Reads every row of the chats table.
pub const SQL_LOAD_CHATS: &'static str = "SELECT chat_id, serialized FROM chats";

/// Appends one row to the event log.
pub const SQL_INSERT: &'static str =
    "INSERT INTO events (chat_id, message_id, date, type, serialized, media_rel_path) \
     VALUES (?1, ?2, ?3, ?4, ?5, ?6)";

/// Writes one chat, replacing the row of the same chat id if there is one.
pub const SQL_UPSERT_CHAT: &'static str =
    "INSERT OR REPLACE INTO chats (chat_id, serialized) VALUES (?1, ?2)";

/// One value handed to a statement as a parameter.
#[derive(Clone, Debug, PartialEq, Eq)]
pub enum SqlValue {
    Null,
    Integer(i64),
    Text(String),
    Blob(Vec<u8>),
}

/// A parameter as a mathematical value.
pub enum SqlValueView {
    Null,
    Integer(i64),
    Text(Seq<char>),
    Blob(Seq<u8>),
}

impl View for SqlValue {
    type V = SqlValueView;

    open spec fn view(&self) -> SqlValueView {
        match *self {
            SqlValue::Null => SqlValueView::Null,
            SqlValue::Integer(n) => SqlValueView::Integer(n),
            SqlValue::Text(s) => SqlValueView::Text(s@),
            SqlValue::Blob(b) => SqlValueView::Blob(b@),
        }
    }
}

/// The views of some parameters.
pub open spec fn param_views(params: Seq<SqlValue>) -> Seq<SqlValueView> {
    Seq::new(params.len(), |i: int| params[i]@)
}

/// Opens the database file, creating it if need be.
///
/// Trusted: `rusqlite::Connection::open`. Nothing is promised of the
/// outcome, which depends on the file system.
#[verifier::external_body]
pub(crate) fn open_connection(db_file: &str) -> Result<rusqlite::Connection, rusqlite::Error> {
    rusqlite::Connection::open(db_file)
}

/// Runs one statement with the given parameters, in order.
///
/// Trusted: `rusqlite::Connection::execute` on the parameters, each turned
/// into the `rusqlite::types::Value` of the same kind. Nothing is promised
/// of the outcome, which depends on the store.
#[verifier::external_body]
pub(crate) fn execute(conn: &rusqlite::Connection, sql: &str, params: &Vec<SqlValue>) -> Result<
    usize,
    rusqlite::Error,
> {
    let values = params.iter().map(|p| match p {
        SqlValue::Null => rusqlite::types::Value::Null,
        SqlValue::Integer(n) => rusqlite::types::Value::Integer(*n),
        SqlValue::Text(s) => rusqlite::types::Value::Text(s.clone()),
        SqlValue::Blob(b) => rusqlite::types::Value::Blob(b.clone()),
    });
    conn.execute(sql, rusqlite::params_from_iter(values))
}

/// Runs a query that yields rows of an integer and a byte string.
///
/// Trusted: `rusqlite::Connection::prepare`, then
/// `rusqlite::Statement::query_map` with a closure that reads the two
/// columns of each row. Nothing is promised of the outcome, which depends
/// on the store.
#[verifier::external_body]
pub(crate) fn query_rows(conn: &rusqlite::Connection, sql: &str) -> Result<
    Vec<(i64, Vec<u8>)>,
    rusqlite::Error,
> {
    let mut stmt = conn.prepare(sql)?;
    let rows = stmt.query_map((), |row| Ok((row.get(0)?, row.get(1)?)))?;
    rows.collect()
}

/// Begins a transaction, which rolls back unless it is committed.
///
/// Trusted: `rusqlite::Connection::transaction`. Nothing is promised of
/// the outcome, which depends on the store.
#[verifier::external_body]
pub(crate) fn begin_transaction<'conn>(conn: &'conn mut rusqlite::Connection) -> Result<
    rusqlite::Transaction<'conn>,
    rusqlite::Error,
> {
    conn.transaction()
}

/// The connection on which a transaction runs.
///
/// Trusted: the `Deref` impl of `rusqlite::Transaction`, which hands out
/// the connection that the transaction was begun on.
#[verifier::external_body]
pub(crate) fn connection_of<'a, 'conn>(
    tx: &'a rusqlite::Transaction<'conn>,
) -> &'a rusqlite::Connection {
    tx
}

/// Commits a transaction.
///
/// Trusted: `rusqlite::Transaction::commit`. Nothing is promised of the
/// outcome, which depends on the store.
#[verifier::external_body]
pub(crate) fn commit_transaction<'conn>(tx: rusqlite::Transaction<'conn>) -> Result<
    (),
    rusqlite::Error,
> {
    tx.commit()
}

} // verus!
