//! The message/task/response data model of the pipeline: metadata that traces
//! a causal chain from an inbound message to every outbound send, the tasks
//! the receive stage produces, and the responses the process stage emits.

use vstd::prelude::*;

verus! {

/// Metadata about a task (data that is common to all tasks and helps identify
/// it through its whole lifecycle).
#[derive(Debug, PartialEq, Eq)]
pub struct Metadata {
    /// The ID of the original message that caused the command.
    pub id: String,
    /// The channel the command was sent in.
    pub channel: String,
    /// The user who sent the command.
    pub sender: String,
}

/// The mathematical value of a [`Metadata`]: its three fields as character
/// sequences.
pub struct MetaModel {
    pub id: Seq<char>,
    pub channel: Seq<char>,
    pub sender: Seq<char>,
}

impl View for Metadata {
    type V = MetaModel;

    open spec fn view(&self) -> MetaModel {
        MetaModel { id: self.id@, channel: self.channel@, sender: self.sender@ }
    }
}

impl Clone for Metadata {
    /// A clone of metadata equals the original.
    fn clone(&self) -> (r: Self)
        ensures
            r == *self,
    {
        Metadata { id: self.id.clone(), channel: self.channel.clone(), sender: self.sender.clone() }
    }
}

/// Pairing a value with metadata.
pub trait WithMeta<M>: Sized {
    /// Pair `self` with `meta`.
    fn with_meta(self, meta: M) -> (r: (Self, M))
        ensures
            r.0 == self,
            r.1 == meta,
    {
        (self, meta)
    }

    /// Pair `self` with a clone of `meta`.
    fn with_cloned_meta(self, meta: &M) -> (r: (Self, M)) where M: Clone
        ensures
            r.0 == self,
            cloned::<M>(*meta, r.1),
    {
        let m = meta.clone();
        (self, m)
    }
}

/// Where a message came from or is going to.
pub enum Location {
    Twitch { channel: String },
}

/// Tasks to perform, which may or may not result in a [`Response`] being sent.
#[derive(Debug, Clone, PartialEq, Eq)]
pub enum Task {
    /// Respond to an arbitrary `command`, identified from a message beginning
    /// with a preset prefix.
    Command {
        /// The command, not including the prefix.
        command: String,
    },
    Implicit(ImplicitTask),
    BuiltIn(BuiltInCommand),
    Help(Help),
}

impl WithMeta<Metadata> for Task {

}

/// Commands which are not triggered by an explicit message of the form
/// `!command` by a user, but are instead triggered in response to a heuristic.
#[derive(Debug, Clone, PartialEq, Eq)]
pub enum ImplicitTask {
    Greet,
}

/// Commands that are built in to the bot, rather than being arbitrary commands
/// stored in the database.
#[derive(Debug, Clone, PartialEq, Eq)]
pub enum BuiltInCommand {
    /// Add a new command to the database, with the given trigger and response.
    AddCommand { trigger: String, response: String },
    /// Add a new quote to the database.
    AddQuote { username: String, key: Option<String>, text: String },
    /// Get a quote by its key.
    GetQuote { key: String },
    /// Get a random quote.
    RandomQuote,
    /// Start a word search run.
    WordSearch,
    /// Set the lower bound after a guess.
    WordLower { word: String, distance: Option<usize> },
    /// Set the upper bound after a guess.
    WordUpper { word: String, distance: Option<usize> },
    /// End a word search run.
    WordFound,
}

/// Requests for help text.
#[derive(Debug, Clone, PartialEq, Eq)]
pub enum Help {
    /// Respond with general help text.
    General,
    /// Respond with help text for the quote command.
    Quote,
}

/// Commands to respond in some way to an action, such as by replying with a
/// message in an IRC channel.
#[derive(Debug, Clone, PartialEq, Eq)]
pub enum Response {
    /// Send a response with the text `message`.
    Say {
        /// The message to send.
        message: String,
    },
}

impl WithMeta<Metadata> for Response {

}

/// The mathematical value of a [`Task`].
pub enum TaskModel {
    Command { command: Seq<char> },
    Implicit(ImplicitTask),
    BuiltIn(BuiltInModel),
    Help(Help),
}

/// The mathematical value of a [`BuiltInCommand`].
pub enum BuiltInModel {
    AddCommand { trigger: Seq<char>, response: Seq<char> },
    AddQuote { username: Seq<char>, key: Option<Seq<char>>, text: Seq<char> },
    GetQuote { key: Seq<char> },
    RandomQuote,
    WordSearch,
    WordLower { word: Seq<char>, distance: Option<usize> },
    WordUpper { word: Seq<char>, distance: Option<usize> },
    WordFound,
}

/// The mathematical value of a [`Response`].
pub enum ResponseModel {
    Say { message: Seq<char> },
}

/// The view of an optional string.
pub open spec fn option_view(o: Option<String>) -> Option<Seq<char>> {
    match o {
        Option::Some(s) => Option::Some(s@),
        Option::None => Option::None,
    }
}

impl View for BuiltInCommand {
    type V = BuiltInModel;

    open spec fn view(&self) -> BuiltInModel {
        match *self {
            BuiltInCommand::AddCommand { trigger, response } => BuiltInModel::AddCommand {
                trigger: trigger@,
                response: response@,
            },
            BuiltInCommand::AddQuote { username, key, text } => BuiltInModel::AddQuote {
                username: username@,
                key: option_view(key),
                text: text@,
            },
            BuiltInCommand::GetQuote { key } => BuiltInModel::GetQuote { key: key@ },
            BuiltInCommand::RandomQuote => BuiltInModel::RandomQuote,
            BuiltInCommand::WordSearch => BuiltInModel::WordSearch,
            BuiltInCommand::WordLower { word, distance } => BuiltInModel::WordLower {
                word: word@,
                distance,
            },
            BuiltInCommand::WordUpper { word, distance } => BuiltInModel::WordUpper {
                word: word@,
                distance,
            },
            BuiltInCommand::WordFound => BuiltInModel::WordFound,
        }
    }
}

impl View for Task {
    type V = TaskModel;

    open spec fn view(&self) -> TaskModel {
        match *self {
            Task::Command { command } => TaskModel::Command { command: command@ },
            Task::Implicit(t) => TaskModel::Implicit(t),
            Task::BuiltIn(b) => TaskModel::BuiltIn(b@),
            Task::Help(h) => TaskModel::Help(h),
        }
    }
}

impl View for Response {
    type V = ResponseModel;

    open spec fn view(&self) -> ResponseModel {
        match *self {
            Response::Say { message } => ResponseModel::Say { message: message@ },
        }
    }
}

/// The views of a sequence of task/metadata pairs.
pub open spec fn task_pairs_view(s: Seq<(Task, Metadata)>) -> Seq<(TaskModel, MetaModel)> {
    Seq::new(s.len(), |i: int| (s[i].0@, s[i].1@))
}

/// The views of a sequence of response/metadata pairs.
pub open spec fn response_pairs_view(s: Seq<(Response, Metadata)>) -> Seq<(ResponseModel, MetaModel)> {
    Seq::new(s.len(), |i: int| (s[i].0@, s[i].1@))
}

} // verus!
