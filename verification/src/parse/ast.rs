//! The abstract syntax of a command line: what the parser produces from the
//! text after the command prefix.

use vstd::prelude::*;

verus! {

/// A parsed command line.
#[derive(Debug, Clone, PartialEq, Eq, Hash)]
pub enum Command {
    Quote(Quote),
    Meta(MetaCommand),
    Search(Search),
    PotentialUser(PotentialUser),
    Help(Help),
}

/// The quote sub-grammar: add a quote (optionally keyed), fetch one by key,
/// or fetch a random one.
#[derive(Debug, Clone, PartialEq, Eq, Hash)]
pub enum Quote {
    Add { username: String, key: Option<String>, text: String },
    Get { key: String },
    Random,
}

/// Definition of a user command: a trigger and the response it should cause.
#[derive(Debug, Clone, PartialEq, Eq, Hash)]
pub struct MetaCommand {
    pub trigger: String,
    pub response: String,
}

/// The word-search sub-grammar.
#[derive(Debug, Clone, PartialEq, Eq, Hash)]
pub enum Search {
    Search,
    Lower { word: String, distance: Option<usize> },
    Upper { word: String, distance: Option<usize> },
    Found,
}

/// A token that may name a user-defined command.
#[derive(Debug, Clone, PartialEq, Eq, Hash)]
pub struct PotentialUser {
    pub trigger: String,
}

/// A request for help text.
#[derive(Debug, Clone, PartialEq, Eq, Hash)]
pub enum Help {
    General,
    Quote,
}

/// The mathematical value of a [`Command`].
pub enum CommandModel {
    Quote(QuoteModel),
    Meta { trigger: Seq<char>, response: Seq<char> },
    Search(SearchModel),
    PotentialUser { trigger: Seq<char> },
    Help(Help),
}

/// The mathematical value of a [`Quote`].
pub enum QuoteModel {
    Add { username: Seq<char>, key: Option<Seq<char>>, text: Seq<char> },
    Get { key: Seq<char> },
    Random,
}

/// The mathematical value of a [`Search`].
pub enum SearchModel {
    Search,
    Lower { word: Seq<char>, distance: Option<usize> },
    Upper { word: Seq<char>, distance: Option<usize> },
    Found,
}

impl View for Quote {
    type V = QuoteModel;

    open spec fn view(&self) -> QuoteModel {
        match *self {
            Quote::Add { username, key, text } => QuoteModel::Add {
                username: username@,
                key: crate::msg::option_view(key),
                text: text@,
            },
            Quote::Get { key } => QuoteModel::Get { key: key@ },
            Quote::Random => QuoteModel::Random,
        }
    }
}

impl View for Search {
    type V = SearchModel;

    open spec fn view(&self) -> SearchModel {
        match *self {
            Search::Search => SearchModel::Search,
            Search::Lower { word, distance } => SearchModel::Lower { word: word@, distance },
            Search::Upper { word, distance } => SearchModel::Upper { word: word@, distance },
            Search::Found => SearchModel::Found,
        }
    }
}

impl View for Command {
    type V = CommandModel;

    open spec fn view(&self) -> CommandModel {
        match *self {
            Command::Quote(q) => CommandModel::Quote(q@),
            Command::Meta(m) => CommandModel::Meta { trigger: m.trigger@, response: m.response@ },
            Command::Search(s) => CommandModel::Search(s@),
            Command::PotentialUser(p) => CommandModel::PotentialUser { trigger: p.trigger@ },
            Command::Help(h) => CommandModel::Help(h),
        }
    }
}

} // verus!
