//! Connections to the persistent store: a pooled SQLite database holding the
//! command and quote tables. The database is an external collaborator; this
//! module opens it, and the sibling modules state what each operation does to
//! the stored contents, modeled by [`commands_in`] and [`quotes_in`].

use vstd::prelude::*;

use r2d2::Pool;
use r2d2_sqlite::SqliteConnectionManager;

verus! {

/// A handle on the pooled SQLite database. The pool's connection manager
/// carries a generic bound Verus refuses to declare, so the whole handle is
/// held opaquely.
#[verifier::external_body]
pub struct Db {
    pub(crate) pool: Pool<SqliteConnectionManager>,
}

/// A stored quote as a mathematical record: channel, username, optional key,
/// text, and optional human-readable date.
pub type QuoteRec = (Seq<char>, Seq<char>, Option<Seq<char>>, Seq<char>, Option<Seq<char>>);

/// What the command table of the database behind `db` holds: the response
/// stored for each (channel, trigger) pair.
pub uninterp spec fn commands_in(db: Db) -> Map<(Seq<char>, Seq<char>), Seq<char>>;

/// What the quote table of the database behind `db` holds.
pub uninterp spec fn quotes_in(db: Db) -> Set<QuoteRec>;

/// Errors opening or talking to the database.
#[derive(Debug, Clone, PartialEq, Eq)]
pub enum Error {
    /// No connection could be had from the pool.
    Pool,
    /// The database refused an operation.
    Database,
}

/// Relies on `SqliteConnectionManager::memory` and `r2d2::Pool::new`: a pool
/// onto a fresh named in-memory database shared by all its connections, with
/// the command and quote tables created empty.
#[verifier::external_body]
pub fn in_memory() -> (r: Result<Db, Error>)
    ensures
        match r {
            Result::Ok(db) => commands_in(db) == Map::<(Seq<char>, Seq<char>), Seq<char>>::empty()
                && quotes_in(db) == Set::<QuoteRec>::empty(),
            Result::Err(_) => true,
        },
{
    let manager = SqliteConnectionManager::memory();
    let pool = match Pool::new(manager) {
        Ok(p) => p,
        Err(_) => return Err(Error::Pool),
    };
    match pool.get() {
        Ok(conn) => match conn.execute_batch("CREATE TABLE IF NOT EXISTS commands (channel TEXT NOT NULL, trigger TEXT NOT NULL, response TEXT NOT NULL, UNIQUE(channel, trigger)); CREATE TABLE IF NOT EXISTS quotes (channel TEXT NOT NULL, username TEXT NOT NULL, key TEXT, quote TEXT NOT NULL, time TEXT, UNIQUE(channel, username, quote), UNIQUE(channel, key));") {
            Ok(()) => Ok(Db { pool }),
            Err(_) => Err(Error::Database),
        },
        Err(_) => Err(Error::Pool),
    }
}

/// Relies on `SqliteConnectionManager::file` and `r2d2::Pool::new`: a pool
/// onto the database file at `path`, with the command and quote tables
/// created when missing. Nothing is known of the contents.
#[verifier::external_body]
pub fn open_file(path: &str) -> (r: Result<Db, Error>) {
    let manager = SqliteConnectionManager::file(path);
    let pool = match Pool::new(manager) {
        Ok(p) => p,
        Err(_) => return Err(Error::Pool),
    };
    match pool.get() {
        Ok(conn) => match conn.execute_batch("CREATE TABLE IF NOT EXISTS commands (channel TEXT NOT NULL, trigger TEXT NOT NULL, response TEXT NOT NULL, UNIQUE(channel, trigger)); CREATE TABLE IF NOT EXISTS quotes (channel TEXT NOT NULL, username TEXT NOT NULL, key TEXT, quote TEXT NOT NULL, time TEXT, UNIQUE(channel, username, quote), UNIQUE(channel, key));") {
            Ok(()) => Ok(Db { pool }),
            Err(_) => Err(Error::Database),
        },
        Err(_) => Err(Error::Pool),
    }
}

} // verus!
