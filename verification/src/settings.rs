//! Configuration of the bot as plain values. The shell that loads real
//! configuration files fills these in and hands them over.

use vstd::prelude::*;

verus! {

/// The whole configuration surface of the bot.
#[derive(Clone)]
pub struct Settings {
    /// The string commands start with.
    pub prefix: String,
    /// The database file to use; in-memory when absent.
    pub database_path: Option<String>,
    /// The Twitch connection settings.
    pub twitch: Twitch,
    /// The OBS connection settings, when that integration is wanted.
    pub obs: Option<Obs>,
}

/// Twitch credentials and identity. Keep the secret out of logs.
#[derive(Clone)]
pub struct Twitch {
    pub client_id: String,
    pub client_secret: String,
    pub name: String,
    pub channels: Vec<String>,
}

/// OBS websocket settings. Keep the password out of logs.
#[derive(Clone)]
pub struct Obs {
    pub websocket_port: u16,
    pub websocket_password: String,
}

} // verus!
