//! Command-line options of the bot binary, as plain values. The shell that
//! parses the real command line fills this in and hands it over.

use vstd::prelude::*;

verus! {

/// The options the bot binary is started with.
pub struct Opts {
    /// Path to the database file, such as `db.sqlite3`, to use. If this is
    /// not provided, an in-memory database will be used instead.
    pub database: Option<String>,
    /// The client ID to use for authentication with the Twitch API.
    pub client_id: String,
    /// The client secret to use for authentication with the Twitch API.
    pub client_secret: String,
    /// The username of the account to post as in Twitch chat.
    pub twitch_name: String,
    /// The character that commands start with.
    pub prefix: char,
    /// The channels to join.
    pub channels: Vec<String>,
}

} // verus!
