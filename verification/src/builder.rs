//! Configuration of a bot instance: a builder that collects credentials, the
//! bot's name, the channels to join, the command prefix and the database
//! path, and validates them into a [`Bot`].

use vstd::prelude::*;

use crate::store::Db;

verus! {

/// A bot ready to be authenticated and run: its validated configuration and
/// an open database.
pub struct Bot {
    pub client_id: String,
    pub client_secret: String,
    pub twitch_name: String,
    pub channels: Vec<String>,
    pub prefix: char,
    pub db: Db,
}

/// The number one single when Twitch user @NinthRoads was born was Bob The
/// Builder.
pub type BotTheBuilder = BotBuilder;

/// Builder for an instance of [`Bot`].
pub struct BotBuilder {
    pub twitch_client_id: Option<String>,
    pub twitch_client_secret: Option<String>,
    pub twitch_name: Option<String>,
    pub channels: Option<Vec<String>>,
    pub db_path: Option<String>,
    pub prefix: Option<char>,
}

impl Bot {
    /// Create a [`BotBuilder`] to build an instance of [`Bot`].
    pub fn builder() -> (r: BotBuilder)
        ensures
            r.twitch_client_id is None,
            r.twitch_client_secret is None,
            r.twitch_name is None,
            r.channels is None,
            r.db_path is None,
            r.prefix is None,
    {
        BotBuilder {
            twitch_client_id: None,
            twitch_client_secret: None,
            twitch_name: None,
            channels: None,
            db_path: None,
            prefix: None,
        }
    }

    /// Create [`BotTheBuilder`] to build an instance of [`Bot`].
    pub fn the_builder() -> (r: BotTheBuilder)
        ensures
            r.twitch_client_id is None,
            r.twitch_client_secret is None,
            r.twitch_name is None,
            r.channels is None,
            r.db_path is None,
            r.prefix is None,
    {
        Self::builder()
    }
}

impl BotBuilder {
    /// Set the client ID and client secret this bot will use for
    /// authentication.
    pub fn twitch_credentials(self, client_id: String, client_secret: String) -> (r: Self)
        ensures
            r == (BotBuilder {
                twitch_client_id: Some(client_id),
                twitch_client_secret: Some(client_secret),
                ..self
            }),
    {
        BotBuilder {
            twitch_client_id: Some(client_id),
            twitch_client_secret: Some(client_secret),
            ..self
        }
    }

    /// Set the Twitch username of this bot.
    pub fn twitch_name(self, twitch_name: String) -> (r: Self)
        ensures
            r == (BotBuilder { twitch_name: Some(twitch_name), ..self }),
    {
        BotBuilder { twitch_name: Some(twitch_name), ..self }
    }

    /// Add a channel to the list of channels to join.
    pub fn add_channel(self, channel: String) -> (r: Self)
        ensures
            r.twitch_client_id == self.twitch_client_id,
            r.twitch_client_secret == self.twitch_client_secret,
            r.twitch_name == self.twitch_name,
            r.db_path == self.db_path,
            r.prefix == self.prefix,
            match (self.channels, r.channels) {
                (Option::Some(before), Option::Some(after)) => after@ == before@.push(channel),
                (Option::None, Option::Some(after)) => after@ == seq![channel],
                _ => false,
            },
    {
        match self.channels {
            Some(mut list) => {
                list.push(channel);
                BotBuilder { channels: Some(list), ..self }
            },
            None => {
                let mut list: Vec<String> = Vec::new();
                list.push(channel);
                proof {
                    assert(list@ =~= seq![channel]);
                }
                BotBuilder { channels: Some(list), ..self }
            },
        }
    }

    /// Extend the list of channels to join.
    pub fn extend_channels(self, channels: Vec<String>) -> (r: Self)
        ensures
            r.twitch_client_id == self.twitch_client_id,
            r.twitch_client_secret == self.twitch_client_secret,
            r.twitch_name == self.twitch_name,
            r.db_path == self.db_path,
            r.prefix == self.prefix,
            match (self.channels, r.channels) {
                (Option::Some(before), Option::Some(after)) => after@ == before@ + channels@,
                (Option::None, Option::Some(after)) => after@ == channels@,
                _ => false,
            },
    {
        match self.channels {
            Some(mut list) => {
                let mut more = channels;
                list.append(&mut more);
                BotBuilder { channels: Some(list), ..self }
            },
            None => {
                BotBuilder { channels: Some(channels), ..self }
            },
        }
    }

    /// Set the prefix that commands start with.
    pub fn prefix(self, prefix: char) -> (r: Self)
        ensures
            r == (BotBuilder { prefix: Some(prefix), ..self }),
    {
        BotBuilder { prefix: Some(prefix), ..self }
    }

    /// Set the bot to open the SQLite database at `path` instead of an
    /// in-memory database.
    pub fn db_path(self, path: String) -> (r: Self)
        ensures
            r == (BotBuilder { db_path: Some(path), ..self }),
    {
        BotBuilder { db_path: Some(path), ..self }
    }

    /// Create a [`Bot`] from this builder, validating the provided values:
    /// each missing value is reported, first one first, and with all present
    /// the database is opened (in memory unless a path was set).
    pub fn build(self) -> (r: Result<Bot, BotBuildError>)
        ensures
            match r {
                Result::Ok(bot) => {
                    &&& self.twitch_client_id == Some(bot.client_id)
                    &&& self.twitch_client_secret == Some(bot.client_secret)
                    &&& self.twitch_name == Some(bot.twitch_name)
                    &&& self.channels == Some(bot.channels)
                    &&& self.prefix == Some(bot.prefix)
                },
                Result::Err(BotBuildError::NoClientId) => self.twitch_client_id is None,
                Result::Err(BotBuildError::NoClientSecret) => self.twitch_client_id is Some
                    && self.twitch_client_secret is None,
                Result::Err(BotBuildError::NoTwitchName) => self.twitch_client_id is Some
                    && self.twitch_client_secret is Some && self.twitch_name is None,
                Result::Err(BotBuildError::NoChannels) => self.twitch_client_id is Some
                    && self.twitch_client_secret is Some && self.twitch_name is Some
                    && self.channels is None,
                Result::Err(BotBuildError::NoPrefix) => self.twitch_client_id is Some
                    && self.twitch_client_secret is Some && self.twitch_name is Some
                    && self.channels is Some && self.prefix is None,
                Result::Err(BotBuildError::Store(_)) => self.twitch_client_id is Some
                    && self.twitch_client_secret is Some && self.twitch_name is Some
                    && self.channels is Some && self.prefix is Some,
            },
    {
        let client_id = match self.twitch_client_id {
            Some(v) => v,
            None => {
                return Err(BotBuildError::NoClientId);
            },
        };
        let client_secret = match self.twitch_client_secret {
            Some(v) => v,
            None => {
                return Err(BotBuildError::NoClientSecret);
            },
        };
        let twitch_name = match self.twitch_name {
            Some(v) => v,
            None => {
                return Err(BotBuildError::NoTwitchName);
            },
        };
        let channels = match self.channels {
            Some(v) => v,
            None => {
                return Err(BotBuildError::NoChannels);
            },
        };
        let prefix = match self.prefix {
            Some(v) => v,
            None => {
                return Err(BotBuildError::NoPrefix);
            },
        };
        let db = match self.db_path {
            Some(path) => match crate::store::open_file(path.as_str()) {
                Ok(db) => db,
                Err(e) => {
                    return Err(BotBuildError::Store(e));
                },
            },
            None => match crate::store::in_memory() {
                Ok(db) => db,
                Err(e) => {
                    return Err(BotBuildError::Store(e));
                },
            },
        };
        Ok(Bot { client_id, client_secret, twitch_name, channels, prefix, db })
    }
}

impl Default for BotBuilder {
    /// An empty builder: nothing set yet.
    fn default() -> (r: Self)
        ensures
            r.twitch_client_id is None,
            r.twitch_client_secret is None,
            r.twitch_name is None,
            r.channels is None,
            r.db_path is None,
            r.prefix is None,
    {
        Bot::builder()
    }
}

/// What kept a builder from producing a bot.
#[derive(Debug, Clone, PartialEq, Eq)]
pub enum BotBuildError {
    /// No client ID provided.
    NoClientId,
    /// No client secret provided.
    NoClientSecret,
    /// No twitch name provided.
    NoTwitchName,
    /// No channels to join provided.
    NoChannels,
    /// No prefix provided.
    NoPrefix,
    /// The database could not be opened.
    Store(crate::store::Error),
}

} // verus!
