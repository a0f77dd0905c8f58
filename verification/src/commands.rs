//! Storage of user-defined commands: for each (channel, trigger) pair the
//! response the bot should give. Backed by the commands table of the pooled
//! SQLite database; the stored contents are modeled as a map.

use vstd::prelude::*;

use r2d2_sqlite::rusqlite::OptionalExtension;

use crate::store::commands_in;
use crate::store::Db;

verus! {

/// Storage of custom commands in an SQLite database.
pub struct CommandsStore {
    db: Db,
}

/// Errors a command-store operation can fail with.
#[derive(Debug, Clone, PartialEq, Eq)]
pub enum CommandsError {
    /// No connection could be had from the pool.
    Pool,
    /// The database refused the operation.
    Database,
}

impl CommandsStore {
    /// What this store holds: the response for each (channel, trigger) pair.
    pub closed spec fn contents(&self) -> Map<(Seq<char>, Seq<char>), Seq<char>> {
        commands_in(self.db)
    }

    /// Create a `CommandsStore` with a connection to a database.
    pub fn new(db: Db) -> (r: Self)
        ensures
            r.contents() == commands_in(db),
    {
        Self { db }
    }

    /// Store `response` for `(channel, trigger)`, replacing any previous
    /// response for that pair.
    ///
    /// Relies on `rusqlite::Connection::execute` running the single upsert
    /// statement in the body: on success the pair maps to `response` and
    /// nothing else changes; a failed statement changes nothing it reports.
    #[verifier::external_body]
    pub fn set_command(&mut self, channel: &str, trigger: &str, response: &str) -> (r: Result<
        (),
        CommandsError,
    >)
        ensures
            match r {
                Result::Ok(()) => final(self).contents() == old(self).contents().insert(
                    (channel@, trigger@),
                    response@,
                ),
                Result::Err(_) => true,
            },
    {
        let conn = match self.db.pool.get() {
            Ok(c) => c,
            Err(_) => return Err(CommandsError::Pool),
        };
        match conn.execute(
            "INSERT INTO commands (channel, trigger, response) VALUES (?1, ?2, ?3) ON CONFLICT(channel, trigger) DO UPDATE SET response = excluded.response;",
            (channel, trigger, response),
        ) {
            Ok(_) => Ok(()),
            Err(_) => Err(CommandsError::Database),
        }
    }

    /// Fetch the response stored for `(channel, trigger)`, if any.
    ///
    /// Relies on `rusqlite::Connection::query_row` running the single select
    /// statement in the body: it returns the stored response exactly when the
    /// pair is present.
    #[verifier::external_body]
    pub fn get_command(&self, channel: &str, trigger: &str) -> (r: Result<
        Option<String>,
        CommandsError,
    >)
        ensures
            match r {
                Result::Ok(Option::Some(response)) => self.contents().contains_key(
                    (channel@, trigger@),
                ) && response@ == self.contents()[(channel@, trigger@)],
                Result::Ok(Option::None) => !self.contents().contains_key((channel@, trigger@)),
                Result::Err(_) => true,
            },
    {
        let conn = match self.db.pool.get() {
            Ok(c) => c,
            Err(_) => return Err(CommandsError::Pool),
        };
        conn.query_row(
            "SELECT response FROM commands WHERE channel = ?1 AND trigger = ?2 LIMIT 1;",
            (channel, trigger),
            |row| row.get(0),
        ).optional().map_err(|_| CommandsError::Database)
    }
}

} // verus!
