//! A chat-bot pipeline library: inbound chat events are classified into
//! tasks, tasks are processed against command and quote stores and a
//! word-elimination game, and the resulting responses are filtered per
//! channel before being sent.

pub mod builder;
pub mod commands;
pub mod msg;
pub mod opts;
pub mod parse;
pub mod process;
pub mod quotes;
pub mod receive;
pub mod respond;
pub mod settings;
pub mod store;
pub mod text;
pub mod timestamp;
pub mod wordsearch;
