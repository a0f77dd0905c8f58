//! The process stage: act on one task, consulting the command and quote
//! stores and the per-channel word-search sessions, and produce zero or more
//! responses, each paired with the metadata of the task that caused it.
//!
//! Domain-level conditions (a duplicate quote, a taken key, no search in
//! progress) are replies, not errors; a missing user command or quote key is
//! deliberate silence; only store failures abort a task with an error.

use vstd::prelude::*;
use vstd::string::StrSliceExecFns;
use vstd::string::StringExecFns;

use crate::commands::CommandsError;
use crate::commands::CommandsStore;
use crate::msg::BuiltInModel;
use crate::msg::ImplicitTask;
use crate::msg::Metadata;
use crate::msg::MetaModel;
use crate::msg::Response;
use crate::msg::ResponseModel;
use crate::msg::Task;
use crate::msg::TaskModel;
use crate::msg::response_pairs_view;
use crate::quotes::QuotesError;
use crate::quotes::QuotesStore;
use crate::quotes::has_channel;
use crate::quotes::has_key;
use crate::quotes::has_text;
use crate::quotes::quote_display;
use crate::store::QuoteRec;
use crate::timestamp::Timestamp;
use crate::wordsearch::WordSearch;
use crate::wordsearch::narrowed_lower;
use crate::wordsearch::narrowed_upper;

verus! {

/// The state of one channel's word-search session.
pub struct SessionModel {
    pub dictionary: Seq<Seq<char>>,
    pub possible: Seq<Seq<char>>,
}

/// The model of one word-search game.
pub open spec fn ws_model(w: WordSearch) -> SessionModel {
    SessionModel { dictionary: w.spec_dictionary(), possible: w.spec_possible() }
}

/// First-match lookup of a channel's session in the session list.
pub open spec fn session_lookup(entries: Seq<(String, WordSearch)>, channel: Seq<char>) -> Option<
    SessionModel,
>
    decreases entries.len(),
{
    if entries.len() == 0 {
        Option::None
    } else if entries[0].0@ == channel {
        Option::Some(ws_model(entries[0].1))
    } else {
        session_lookup(entries.drop_first(), channel)
    }
}

proof fn lemma_session_lookup_at(entries: Seq<(String, WordSearch)>, channel: Seq<char>, i: int)
    requires
        0 <= i < entries.len(),
        entries[i].0@ == channel,
        forall|j: int| 0 <= j < i ==> entries[j].0@ != channel,
    ensures
        session_lookup(entries, channel) == Option::Some(ws_model(entries[i].1)),
    decreases i,
{
    if i > 0 {
        lemma_session_lookup_at(entries.drop_first(), channel, i - 1);
    }
}

proof fn lemma_session_lookup_none(entries: Seq<(String, WordSearch)>, channel: Seq<char>)
    requires
        forall|j: int| 0 <= j < entries.len() ==> entries[j].0@ != channel,
    ensures
        session_lookup(entries, channel) is None,
    decreases entries.len(),
{
    if entries.len() > 0 {
        lemma_session_lookup_none(entries.drop_first(), channel);
    }
}

proof fn lemma_session_lookup_update(
    entries: Seq<(String, WordSearch)>,
    i: int,
    pair: (String, WordSearch),
    channel: Seq<char>,
)
    requires
        0 <= i < entries.len(),
        entries[i].0@ == channel,
        pair.0@ == channel,
        forall|j: int| 0 <= j < i ==> entries[j].0@ != channel,
    ensures
        session_lookup(entries.update(i, pair), channel) == Option::Some(ws_model(pair.1)),
        forall|c2: Seq<char>|
            c2 != channel ==> session_lookup(entries.update(i, pair), c2) == session_lookup(
                entries,
                c2,
            ),
    decreases i,
{
    if i == 0 {
        assert forall|c2: Seq<char>| c2 != channel implies session_lookup(
            entries.update(i, pair),
            c2,
        ) == session_lookup(entries, c2) by {
            assert(entries.update(0, pair).drop_first() =~= entries.drop_first());
        }
    } else {
        lemma_session_lookup_update(entries.drop_first(), i - 1, pair, channel);
        assert(entries.update(i, pair).drop_first() =~= entries.drop_first().update(i - 1, pair));
        assert(entries.update(i, pair)[0] == entries[0]);
        assert forall|c2: Seq<char>| c2 != channel implies session_lookup(
            entries.update(i, pair),
            c2,
        ) == session_lookup(entries, c2) by {
            assert(session_lookup(entries.drop_first().update(i - 1, pair), c2) == session_lookup(
                entries.drop_first(),
                c2,
            ));
        }
    }
}

proof fn lemma_session_lookup_push(
    entries: Seq<(String, WordSearch)>,
    pair: (String, WordSearch),
    channel: Seq<char>,
)
    requires
        forall|j: int| 0 <= j < entries.len() ==> entries[j].0@ != channel,
        pair.0@ == channel,
    ensures
        session_lookup(entries.push(pair), channel) == Option::Some(ws_model(pair.1)),
        forall|c2: Seq<char>|
            c2 != channel ==> session_lookup(entries.push(pair), c2) == session_lookup(entries, c2),
    decreases entries.len(),
{
    if entries.len() == 0 {
        assert(entries.push(pair)[0] == pair);
        assert(entries.push(pair).drop_first() =~= entries);
        assert forall|c2: Seq<char>| c2 != channel implies session_lookup(
            entries.push(pair),
            c2,
        ) == session_lookup(entries, c2) by {
            assert(session_lookup(entries, c2) is None);
        }
    } else {
        lemma_session_lookup_push(entries.drop_first(), pair, channel);
        assert(entries.push(pair).drop_first() =~= entries.drop_first().push(pair));
        assert(entries.push(pair)[0] == entries[0]);
        assert forall|c2: Seq<char>| c2 != channel implies session_lookup(
            entries.push(pair),
            c2,
        ) == session_lookup(entries, c2) by {
            if entries[0].0@ != c2 {
                assert(session_lookup(entries.drop_first().push(pair), c2) == session_lookup(
                    entries.drop_first(),
                    c2,
                ));
            }
        }
    }
}

/// One response paired with metadata, as a model value.
pub open spec fn say(message: Seq<char>, meta: MetaModel) -> (ResponseModel, MetaModel) {
    (ResponseModel::Say { message }, meta)
}

/// The greeting reply.
pub open spec fn greet_message(sender: Seq<char>) -> Seq<char> {
    "uwu *nuzzles @"@ + sender + "*"@
}

/// The general help reply.
pub open spec fn help_general_message(sender: Seq<char>) -> Seq<char> {
    "@"@ + sender + " See oxbow.cacti.dev/commands for help"@
}

/// The quote help reply.
pub open spec fn help_quote_message(sender: Seq<char>, prefix: char) -> Seq<char> {
    "@"@ + sender + " See oxbow.cacti.dev/commands#quotes for help with "@ + seq![prefix]
        + "quote"@
}

/// The reply confirming a stored command: its verb says whether the trigger
/// was already defined.
pub open spec fn added_message(already: bool, prefix: char, trigger: Seq<char>) -> Seq<char> {
    (if already {
        "Updated "@
    } else {
        "Added "@
    }) + seq![prefix] + trigger
}

/// The reply confirming a stored keyed quote.
pub open spec fn quote_added_keyed_message(key: Seq<char>, username: Seq<char>, now: Timestamp) -> Seq<
    char,
> {
    "Quote #"@ + key + " added from @"@ + username + " on "@ + now.spec_date() + " at "@
        + now.spec_time() + " UTC"@
}

/// The reply confirming a stored unkeyed quote.
pub open spec fn quote_added_message(username: Seq<char>, now: Timestamp) -> Seq<char> {
    "Quote added from @"@ + username + " on "@ + now.spec_date() + " at "@ + now.spec_time()
        + " UTC"@
}

/// The reply to an attempt to reuse a quote key.
pub open spec fn duplicate_key_message(key: Seq<char>) -> Seq<char> {
    "Quote #"@ + key + " already exists"@
}

/// The reply to an attempt to store a quote twice.
pub open spec fn duplicate_quote_message(username: Seq<char>) -> Seq<char> {
    "That quote from @"@ + username + " is already saved"@
}

/// The reply carrying the current midpoint guess.
pub open spec fn word_guess_message(word: Seq<char>) -> Seq<char> {
    "!wg "@ + word
}

/// The reply when narrowing has left no candidate words.
pub open spec fn no_words_message() -> Seq<char> {
    "No possible words remain!"@
}

/// The reply to a word-search command without a session.
pub open spec fn no_search_message(prefix: char) -> Seq<char> {
    "No word search in progress! Start one with "@ + seq![prefix] + "search"@
}

/// The reply confirming a stopped word search.
pub open spec fn word_stopped_message() -> Seq<char> {
    "Word search stopped"@
}

/// The reply to stopping a word search that never started.
pub open spec fn no_search_to_stop_message() -> Seq<char> {
    "No word search in progress!"@
}

/// The guess reply for a candidate list: its midpoint word, or the no-words
/// reply when it is empty.
pub open spec fn guess_reply(possible: Seq<Seq<char>>) -> Seq<char> {
    if possible.len() > 0 {
        word_guess_message(possible[possible.len() as int / 2])
    } else {
        no_words_message()
    }
}

/// Errors that abort one task: an underlying store failed.
#[derive(Debug, Clone, PartialEq, Eq)]
pub enum ProcessError {
    /// The command store failed.
    Command(CommandsError),
    /// The quote store failed.
    Quote(QuotesError),
}

/// The process stage: the two stores, the command prefix (for replies that
/// quote it), and each channel's word-search session.
pub struct ProcessHandler {
    commands: CommandsStore,
    quotes: QuotesStore,
    prefix: char,
    word_searches: Vec<(String, WordSearch)>,
}

impl ProcessHandler {
    /// What the command store holds.
    pub closed spec fn spec_commands(&self) -> Map<(Seq<char>, Seq<char>), Seq<char>> {
        self.commands.contents()
    }

    /// What the quote store holds.
    pub closed spec fn spec_quotes(&self) -> Set<QuoteRec> {
        self.quotes.contents()
    }

    /// The configured command prefix.
    pub closed spec fn spec_prefix(&self) -> char {
        self.prefix
    }

    /// The word-search session of `channel`, if one exists.
    pub closed spec fn spec_session(&self, channel: Seq<char>) -> Option<SessionModel> {
        session_lookup(self.word_searches@, channel)
    }

    /// A fresh process stage over the given stores, with no sessions.
    pub fn new(commands: CommandsStore, quotes: QuotesStore, prefix: char) -> (r: Self)
        ensures
            r.spec_commands() == commands.contents(),
            r.spec_quotes() == quotes.contents(),
            r.spec_prefix() == prefix,
            forall|c: Seq<char>| r.spec_session(c) is None,
    {
        let r = ProcessHandler { commands, quotes, prefix, word_searches: Vec::new() };
        proof {
            assert forall|c: Seq<char>| r.spec_session(c) is None by {
                lemma_session_lookup_none(r.word_searches@, c);
            }
        }
        r
    }

    /// The index of `channel`'s session entry, if one exists.
    fn find_session(&self, channel: &str) -> (r: Option<usize>)
        ensures
            match r {
                Option::Some(i) => {
                    &&& i < self.word_searches@.len()
                    &&& self.word_searches@[i as int].0@ == channel@
                    &&& forall|j: int| 0 <= j < i ==> self.word_searches@[j].0@ != channel@
                },
                Option::None => forall|j: int|
                    0 <= j < self.word_searches@.len() ==> self.word_searches@[j].0@ != channel@,
            },
    {
        let n = self.word_searches.len();
        let mut i: usize = 0;
        while i < n
            invariant
                n == self.word_searches@.len(),
                i <= n,
                forall|j: int| 0 <= j < i ==> self.word_searches@[j].0@ != channel@,
            decreases n - i,
        {
            if crate::text::str_eq(self.word_searches[i].0.as_str(), channel) {
                return Some(i);
            }
            i = i + 1;
        }
        None
    }
}

/// Build the greeting reply.
fn build_greet(sender: &str) -> (r: String)
    ensures
        r@ == greet_message(sender@),
{
    let mut s = String::from_str("uwu *nuzzles @");
    s.append(sender);
    s.append("*");
    proof {
        assert(s@ =~= greet_message(sender@));
    }
    s
}

/// Build the general help reply.
fn build_help_general(sender: &str) -> (r: String)
    ensures
        r@ == help_general_message(sender@),
{
    let mut s = String::from_str("@");
    s.append(sender);
    s.append(" See oxbow.cacti.dev/commands for help");
    proof {
        assert(s@ =~= help_general_message(sender@));
    }
    s
}

/// Build the quote help reply.
fn build_help_quote(sender: &str, prefix: char) -> (r: String)
    ensures
        r@ == help_quote_message(sender@, prefix),
{
    let mut s = String::from_str("@");
    s.append(sender);
    s.append(" See oxbow.cacti.dev/commands#quotes for help with ");
    s.push(prefix);
    s.append("quote");
    proof {
        assert(s@ =~= help_quote_message(sender@, prefix));
    }
    s
}

/// Build the reply confirming a stored command.
fn build_added(already: bool, prefix: char, trigger: &str) -> (r: String)
    ensures
        r@ == added_message(already, prefix, trigger@),
{
    let mut s = if already {
        String::from_str("Updated ")
    } else {
        String::from_str("Added ")
    };
    s.push(prefix);
    s.append(trigger);
    proof {
        assert(s@ =~= added_message(already, prefix, trigger@));
    }
    s
}

/// Build the reply confirming a stored keyed quote.
fn build_quote_added_keyed(key: &str, username: &str, now: &Timestamp) -> (r: String)
    requires
        now.wf(),
    ensures
        r@ == quote_added_keyed_message(key@, username@, *now),
{
    let mut s = String::from_str("Quote #");
    s.append(key);
    s.append(" added from @");
    s.append(username);
    s.append(" on ");
    let d = now.date_string();
    s.append(d.as_str());
    s.append(" at ");
    let tm = now.time_string();
    s.append(tm.as_str());
    s.append(" UTC");
    proof {
        assert(s@ =~= quote_added_keyed_message(key@, username@, *now));
    }
    s
}

/// Build the reply confirming a stored unkeyed quote.
fn build_quote_added(username: &str, now: &Timestamp) -> (r: String)
    requires
        now.wf(),
    ensures
        r@ == quote_added_message(username@, *now),
{
    let mut s = String::from_str("Quote added from @");
    s.append(username);
    s.append(" on ");
    let d = now.date_string();
    s.append(d.as_str());
    s.append(" at ");
    let tm = now.time_string();
    s.append(tm.as_str());
    s.append(" UTC");
    proof {
        assert(s@ =~= quote_added_message(username@, *now));
    }
    s
}

/// Build the reply to a reused quote key.
fn build_duplicate_key(key: &str) -> (r: String)
    ensures
        r@ == duplicate_key_message(key@),
{
    let mut s = String::from_str("Quote #");
    s.append(key);
    s.append(" already exists");
    proof {
        assert(s@ =~= duplicate_key_message(key@));
    }
    s
}

/// Build the reply to a repeated quote.
fn build_duplicate_quote(username: &str) -> (r: String)
    ensures
        r@ == duplicate_quote_message(username@),
{
    let mut s = String::from_str("That quote from @");
    s.append(username);
    s.append(" is already saved");
    proof {
        assert(s@ =~= duplicate_quote_message(username@));
    }
    s
}

/// Build the reply carrying the current guess, from the game's answer.
fn build_guess_reply(g: Option<String>) -> (r: String)
    ensures
        match g {
            Option::Some(w) => r@ == word_guess_message(w@),
            Option::None => r@ == no_words_message(),
        },
{
    match g {
        Some(w) => {
            let mut s = String::from_str("!wg ");
            s.append(w.as_str());
            proof {
                assert(s@ =~= word_guess_message(w@));
            }
            s
        },
        None => String::from_str("No possible words remain!"),
    }
}

/// Build the reply to a word-search command without a session.
fn build_no_search(prefix: char) -> (r: String)
    ensures
        r@ == no_search_message(prefix),
{
    let mut s = String::from_str("No word search in progress! Start one with ");
    s.push(prefix);
    s.append("search");
    proof {
        assert(s@ =~= no_search_message(prefix));
    }
    s
}

/// The two stores hold the same contents in `pre` and `post`.
pub open spec fn same_stores(pre: ProcessHandler, post: ProcessHandler) -> bool {
    post.spec_commands() == pre.spec_commands() && post.spec_quotes() == pre.spec_quotes()
}

/// Every channel's session is the same in `pre` and `post`.
pub open spec fn same_sessions(pre: ProcessHandler, post: ProcessHandler) -> bool {
    forall|c: Seq<char>| post.spec_session(c) == pre.spec_session(c)
}

/// Every channel's session but `channel`'s is the same in `pre` and `post`.
pub open spec fn same_sessions_except(
    pre: ProcessHandler,
    post: ProcessHandler,
    channel: Seq<char>,
) -> bool {
    forall|c: Seq<char>| c != channel ==> post.spec_session(c) == pre.spec_session(c)
}

impl ProcessHandler {
    /// Act on one task: consult or update the stores and the word-search
    /// sessions and return the responses to broadcast, each paired with the
    /// task's metadata. Domain-level conditions are replies or silence.
    pub fn handle_task(&mut self, task: Task, meta: Metadata, now: &Timestamp) -> (r: Result<
        Vec<(Response, Metadata)>,
        ProcessError,
    >)
        requires
            now.wf(),
        ensures
            final(self).spec_prefix() == old(self).spec_prefix(),
            match task@ {
                TaskModel::Command { command } => command_task_post(
                    *old(self),
                    *final(self),
                    command,
                    meta@,
                    r,
                ),
                TaskModel::Implicit(ImplicitTask::Greet) => greet_task_post(
                    *old(self),
                    *final(self),
                    meta@,
                    r,
                ),
                TaskModel::Help(h) => help_task_post(*old(self), *final(self), h, meta@, r),
                TaskModel::BuiltIn(BuiltInModel::AddCommand { trigger, response }) => add_command_post(
                    *old(self),
                    *final(self),
                    trigger,
                    response,
                    meta@,
                    r,
                ),
                TaskModel::BuiltIn(BuiltInModel::AddQuote { username, key, text }) => add_quote_post(
                    *old(self),
                    *final(self),
                    username,
                    key,
                    text,
                    meta@,
                    *now,
                    r,
                ),
                TaskModel::BuiltIn(BuiltInModel::GetQuote { key }) => get_quote_post(
                    *old(self),
                    *final(self),
                    key,
                    meta@,
                    r,
                ),
                TaskModel::BuiltIn(BuiltInModel::RandomQuote) => random_quote_post(
                    *old(self),
                    *final(self),
                    meta@,
                    r,
                ),
                TaskModel::BuiltIn(BuiltInModel::WordSearch) => word_search_post(
                    *old(self),
                    *final(self),
                    meta@,
                    r,
                ),
                TaskModel::BuiltIn(BuiltInModel::WordLower { word, distance }) => word_bound_post(
                    *old(self),
                    *final(self),
                    word,
                    distance,
                    true,
                    meta@,
                    r,
                ),
                TaskModel::BuiltIn(BuiltInModel::WordUpper { word, distance }) => word_bound_post(
                    *old(self),
                    *final(self),
                    word,
                    distance,
                    false,
                    meta@,
                    r,
                ),
                TaskModel::BuiltIn(BuiltInModel::WordFound) => word_found_post(
                    *old(self),
                    *final(self),
                    meta@,
                    r,
                ),
            },
    {
        match task {
            Task::Command { command } => self.user_command_task(command, meta),
            Task::Implicit(ImplicitTask::Greet) => self.greet_task(meta),
            Task::Help(h) => self.help_task(h, meta),
            Task::BuiltIn(crate::msg::BuiltInCommand::AddCommand { trigger, response }) => self
                .add_command_task(trigger, response, meta),
            Task::BuiltIn(crate::msg::BuiltInCommand::AddQuote { username, key, text }) => self
                .add_quote_task(username, key, text, meta, now),
            Task::BuiltIn(crate::msg::BuiltInCommand::GetQuote { key }) => self.get_quote_task(
                key,
                meta,
            ),
            Task::BuiltIn(crate::msg::BuiltInCommand::RandomQuote) => self.random_quote_task(meta),
            Task::BuiltIn(crate::msg::BuiltInCommand::WordSearch) => self.word_search_task(meta),
            Task::BuiltIn(crate::msg::BuiltInCommand::WordLower { word, distance }) => self
                .word_bound_task(word, distance, true, meta),
            Task::BuiltIn(crate::msg::BuiltInCommand::WordUpper { word, distance }) => self
                .word_bound_task(word, distance, false, meta),
            Task::BuiltIn(crate::msg::BuiltInCommand::WordFound) => self.word_found_task(meta),
        }
    }

    /// Look up a user-defined command and reply with its stored response, or
    /// stay silent when none is stored.
    fn user_command_task(&mut self, command: String, meta: Metadata) -> (r: Result<
        Vec<(Response, Metadata)>,
        ProcessError,
    >)
        ensures
            final(self).spec_prefix() == old(self).spec_prefix(),
            command_task_post(*old(self), *final(self), command@, meta@, r),
    {
        match self.commands.get_command(meta.channel.as_str(), command.as_str()) {
            Ok(Some(message)) => {
                let rs = vec![(Response::Say { message }, meta)];
                proof {
                    assert(response_pairs_view(rs@) =~= seq![
                        say(self.spec_commands()[(meta@.channel, command@)], meta@),
                    ]);
                }
                Ok(rs)
            },
            Ok(None) => Ok(Vec::new()),
            Err(e) => Err(ProcessError::Command(e)),
        }
    }

    /// Greet the sender back.
    fn greet_task(&mut self, meta: Metadata) -> (r: Result<
        Vec<(Response, Metadata)>,
        ProcessError,
    >)
        ensures
            final(self).spec_prefix() == old(self).spec_prefix(),
            greet_task_post(*old(self), *final(self), meta@, r),
    {
        let message = build_greet(meta.sender.as_str());
        let rs = vec![(Response::Say { message }, meta)];
        proof {
            assert(response_pairs_view(rs@) =~= seq![say(greet_message(meta@.sender), meta@)]);
        }
        Ok(rs)
    }

    /// Reply with the requested help text.
    fn help_task(&mut self, h: crate::msg::Help, meta: Metadata) -> (r: Result<
        Vec<(Response, Metadata)>,
        ProcessError,
    >)
        ensures
            final(self).spec_prefix() == old(self).spec_prefix(),
            help_task_post(*old(self), *final(self), h, meta@, r),
    {
        let message = match h {
            crate::msg::Help::General => build_help_general(meta.sender.as_str()),
            crate::msg::Help::Quote => build_help_quote(meta.sender.as_str(), self.prefix),
        };
        let rs = vec![(Response::Say { message }, meta)];
        proof {
            assert(response_pairs_view(rs@) =~= seq![response_pairs_view(rs@)[0]]);
        }
        Ok(rs)
    }

    /// Store a user-defined command and reply whether it was added or
    /// updated, read off before the upsert.
    fn add_command_task(&mut self, trigger: String, response: String, meta: Metadata) -> (r: Result<
        Vec<(Response, Metadata)>,
        ProcessError,
    >)
        ensures
            final(self).spec_prefix() == old(self).spec_prefix(),
            add_command_post(*old(self), *final(self), trigger@, response@, meta@, r),
    {
        let already = match self.commands.get_command(meta.channel.as_str(), trigger.as_str()) {
            Ok(found) => found.is_some(),
            Err(e) => return Err(ProcessError::Command(e)),
        };
        match self.commands.set_command(
            meta.channel.as_str(),
            trigger.as_str(),
            response.as_str(),
        ) {
            Ok(()) => {
            },
            Err(e) => return Err(ProcessError::Command(e)),
        }
        let message = build_added(already, self.prefix, trigger.as_str());
        let rs = vec![(Response::Say { message }, meta)];
        proof {
            assert(response_pairs_view(rs@) =~= seq![response_pairs_view(rs@)[0]]);
        }
        Ok(rs)
    }

    /// Store a quote, keyed or unkeyed, and reply with a confirmation that
    /// includes the date and time, or with the duplicate that was hit.
    fn add_quote_task(
        &mut self,
        username: String,
        key: Option<String>,
        text: String,
        meta: Metadata,
        now: &Timestamp,
    ) -> (r: Result<Vec<(Response, Metadata)>, ProcessError>)
        requires
            now.wf(),
        ensures
            final(self).spec_prefix() == old(self).spec_prefix(),
            add_quote_post(
                *old(self),
                *final(self),
                username@,
                crate::msg::option_view(key),
                text@,
                meta@,
                *now,
                r,
            ),
    {
        match key {
            Some(k) => {
                match self.quotes.add_quote_keyed(
                    meta.channel.as_str(),
                    username.as_str(),
                    k.as_str(),
                    text.as_str(),
                    now,
                ) {
                    Ok(()) => {
                        let message = build_quote_added_keyed(k.as_str(), username.as_str(), now);
                        let rs = vec![(Response::Say { message }, meta)];
                        proof {
                            assert(response_pairs_view(rs@) =~= seq![response_pairs_view(rs@)[0]]);
                        }
                        Ok(rs)
                    },
                    Err(QuotesError::DuplicateKey { .. }) => {
                        let message = build_duplicate_key(k.as_str());
                        let rs = vec![(Response::Say { message }, meta)];
                        proof {
                            assert(response_pairs_view(rs@) =~= seq![response_pairs_view(rs@)[0]]);
                        }
                        Ok(rs)
                    },
                    Err(QuotesError::DuplicateQuote { .. }) => {
                        let message = build_duplicate_quote(username.as_str());
                        let rs = vec![(Response::Say { message }, meta)];
                        proof {
                            assert(response_pairs_view(rs@) =~= seq![response_pairs_view(rs@)[0]]);
                        }
                        Ok(rs)
                    },
                    Err(e) => Err(ProcessError::Quote(e)),
                }
            },
            None => {
                match self.quotes.add_quote_unkeyed(
                    meta.channel.as_str(),
                    username.as_str(),
                    text.as_str(),
                    now,
                ) {
                    Ok(()) => {
                        let message = build_quote_added(username.as_str(), now);
                        let rs = vec![(Response::Say { message }, meta)];
                        proof {
                            assert(response_pairs_view(rs@) =~= seq![response_pairs_view(rs@)[0]]);
                        }
                        Ok(rs)
                    },
                    Err(QuotesError::DuplicateQuote { .. }) => {
                        let message = build_duplicate_quote(username.as_str());
                        let rs = vec![(Response::Say { message }, meta)];
                        proof {
                            assert(response_pairs_view(rs@) =~= seq![response_pairs_view(rs@)[0]]);
                        }
                        Ok(rs)
                    },
                    Err(e) => Err(ProcessError::Quote(e)),
                }
            },
        }
    }

    /// Reply with the quote stored under `key`, or stay silent when there is
    /// none.
    fn get_quote_task(&mut self, key: String, meta: Metadata) -> (r: Result<
        Vec<(Response, Metadata)>,
        ProcessError,
    >)
        ensures
            final(self).spec_prefix() == old(self).spec_prefix(),
            get_quote_post(*old(self), *final(self), key@, meta@, r),
    {
        match self.quotes.get_quote_keyed(meta.channel.as_str(), key.as_str()) {
            Ok(Some(q)) => {
                let ghost rec = crate::quotes::quote_rec(meta@.channel, q);
                let message = q.to_message();
                let rs = vec![(Response::Say { message }, meta)];
                proof {
                    assert(old(self).spec_quotes().contains(rec));
                    assert(response_pairs_view(rs@) =~= seq![
                        say(quote_display(rec.1, rec.2, rec.3, rec.4), meta@),
                    ]);
                }
                Ok(rs)
            },
            Ok(None) => Ok(Vec::new()),
            Err(e) => Err(ProcessError::Quote(e)),
        }
    }

    /// Reply with a randomly chosen quote of the channel, or stay silent when
    /// it has none.
    fn random_quote_task(&mut self, meta: Metadata) -> (r: Result<
        Vec<(Response, Metadata)>,
        ProcessError,
    >)
        ensures
            final(self).spec_prefix() == old(self).spec_prefix(),
            random_quote_post(*old(self), *final(self), meta@, r),
    {
        match self.quotes.get_quote_random(meta.channel.as_str()) {
            Ok(Some(q)) => {
                let ghost rec = crate::quotes::quote_rec(meta@.channel, q);
                let message = q.to_message();
                let rs = vec![(Response::Say { message }, meta)];
                proof {
                    assert(old(self).spec_quotes().contains(rec));
                    assert(response_pairs_view(rs@) =~= seq![
                        say(quote_display(rec.1, rec.2, rec.3, rec.4), meta@),
                    ]);
                }
                Ok(rs)
            },
            Ok(None) => Ok(Vec::new()),
            Err(e) => Err(ProcessError::Quote(e)),
        }
    }

    /// Reset the channel's session to the full dictionary, creating it when
    /// missing, and reply with the first guess.
    fn word_search_task(&mut self, meta: Metadata) -> (r: Result<
        Vec<(Response, Metadata)>,
        ProcessError,
    >)
        ensures
            final(self).spec_prefix() == old(self).spec_prefix(),
            word_search_post(*old(self), *final(self), meta@, r),
    {
        let ghost pre = *self;
        match self.find_session(meta.channel.as_str()) {
            Some(i) => {
                let (name, mut ws) = self.word_searches.remove(i);
                ws.reset();
                let g = ws.guess();
                self.word_searches.insert(i, (name, ws));
                proof {
                    assert(self.word_searches@ =~= pre.word_searches@.update(
                        i as int,
                        self.word_searches@[i as int],
                    ));
                    lemma_session_lookup_at(pre.word_searches@, meta@.channel, i as int);
                    lemma_session_lookup_update(
                        pre.word_searches@,
                        i as int,
                        self.word_searches@[i as int],
                        meta@.channel,
                    );
                }
                let message = build_guess_reply(g);
                let rs = vec![(Response::Say { message }, meta)];
                proof {
                    assert(response_pairs_view(rs@) =~= seq![response_pairs_view(rs@)[0]]);
                }
                Ok(rs)
            },
            None => {
                let ws = WordSearch::new();
                let g = ws.guess();
                let name = meta.channel.clone();
                self.word_searches.push((name, ws));
                proof {
                    lemma_session_lookup_none(pre.word_searches@, meta@.channel);
                    lemma_session_lookup_push(
                        pre.word_searches@,
                        self.word_searches@[pre.word_searches@.len() as int],
                        meta@.channel,
                    );
                }
                let message = build_guess_reply(g);
                let rs = vec![(Response::Say { message }, meta)];
                proof {
                    assert(response_pairs_view(rs@) =~= seq![response_pairs_view(rs@)[0]]);
                }
                Ok(rs)
            },
        }
    }

    /// Narrow the channel's session below or above `word` and reply with the
    /// new guess; without a session, reply how to start one.
    fn word_bound_task(
        &mut self,
        word: String,
        distance: Option<usize>,
        lower: bool,
        meta: Metadata,
    ) -> (r: Result<Vec<(Response, Metadata)>, ProcessError>)
        ensures
            final(self).spec_prefix() == old(self).spec_prefix(),
            word_bound_post(*old(self), *final(self), word@, distance, lower, meta@, r),
    {
        let ghost pre = *self;
        match self.find_session(meta.channel.as_str()) {
            Some(i) => {
                let (name, mut ws) = self.word_searches.remove(i);
                if lower {
                    ws.set_lower(word.as_str(), distance);
                } else {
                    ws.set_upper(word.as_str(), distance);
                }
                let g = ws.guess();
                self.word_searches.insert(i, (name, ws));
                proof {
                    assert(self.word_searches@ =~= pre.word_searches@.update(
                        i as int,
                        self.word_searches@[i as int],
                    ));
                    lemma_session_lookup_at(pre.word_searches@, meta@.channel, i as int);
                    lemma_session_lookup_update(
                        pre.word_searches@,
                        i as int,
                        self.word_searches@[i as int],
                        meta@.channel,
                    );
                }
                let message = build_guess_reply(g);
                let rs = vec![(Response::Say { message }, meta)];
                proof {
                    assert(response_pairs_view(rs@) =~= seq![response_pairs_view(rs@)[0]]);
                }
                Ok(rs)
            },
            None => {
                proof {
                    lemma_session_lookup_none(pre.word_searches@, meta@.channel);
                }
                let message = build_no_search(self.prefix);
                let rs = vec![(Response::Say { message }, meta)];
                proof {
                    assert(response_pairs_view(rs@) =~= seq![response_pairs_view(rs@)[0]]);
                }
                Ok(rs)
            },
        }
    }

    /// Stop the channel's search: reset the session to the full dictionary
    /// and confirm, or say that none was running.
    fn word_found_task(&mut self, meta: Metadata) -> (r: Result<
        Vec<(Response, Metadata)>,
        ProcessError,
    >)
        ensures
            final(self).spec_prefix() == old(self).spec_prefix(),
            word_found_post(*old(self), *final(self), meta@, r),
    {
        let ghost pre = *self;
        match self.find_session(meta.channel.as_str()) {
            Some(i) => {
                let (name, mut ws) = self.word_searches.remove(i);
                ws.reset();
                self.word_searches.insert(i, (name, ws));
                proof {
                    assert(self.word_searches@ =~= pre.word_searches@.update(
                        i as int,
                        self.word_searches@[i as int],
                    ));
                    lemma_session_lookup_at(pre.word_searches@, meta@.channel, i as int);
                    lemma_session_lookup_update(
                        pre.word_searches@,
                        i as int,
                        self.word_searches@[i as int],
                        meta@.channel,
                    );
                }
                let message = String::from_str("Word search stopped");
                let rs = vec![(Response::Say { message }, meta)];
                proof {
                    assert(response_pairs_view(rs@) =~= seq![response_pairs_view(rs@)[0]]);
                }
                Ok(rs)
            },
            None => {
                proof {
                    lemma_session_lookup_none(pre.word_searches@, meta@.channel);
                }
                let message = String::from_str("No word search in progress!");
                let rs = vec![(Response::Say { message }, meta)];
                proof {
                    assert(response_pairs_view(rs@) =~= seq![response_pairs_view(rs@)[0]]);
                }
                Ok(rs)
            },
        }
    }
}

/// What processing a user-command task guarantees.
pub open spec fn command_task_post(
    pre: ProcessHandler,
    post: ProcessHandler,
    command: Seq<char>,
    meta: MetaModel,
    r: Result<Vec<(Response, Metadata)>, ProcessError>,
) -> bool {
    match r {
        Result::Ok(rs) => {
            &&& same_stores(pre, post)
            &&& same_sessions(pre, post)
            &&& if pre.spec_commands().contains_key((meta.channel, command)) {
                response_pairs_view(rs@) == seq![
                    say(pre.spec_commands()[(meta.channel, command)], meta),
                ]
            } else {
                rs@.len() == 0
            }
        },
        Result::Err(_) => true,
    }
}

/// What processing a greeting task guarantees.
pub open spec fn greet_task_post(
    pre: ProcessHandler,
    post: ProcessHandler,
    meta: MetaModel,
    r: Result<Vec<(Response, Metadata)>, ProcessError>,
) -> bool {
    &&& r is Ok
    &&& same_stores(pre, post)
    &&& same_sessions(pre, post)
    &&& response_pairs_view(r->Ok_0@) == seq![say(greet_message(meta.sender), meta)]
}

/// What processing a help task guarantees.
pub open spec fn help_task_post(
    pre: ProcessHandler,
    post: ProcessHandler,
    h: crate::msg::Help,
    meta: MetaModel,
    r: Result<Vec<(Response, Metadata)>, ProcessError>,
) -> bool {
    &&& r is Ok
    &&& same_stores(pre, post)
    &&& same_sessions(pre, post)
    &&& response_pairs_view(r->Ok_0@) == seq![
        say(
            match h {
                crate::msg::Help::General => help_general_message(meta.sender),
                crate::msg::Help::Quote => help_quote_message(meta.sender, pre.spec_prefix()),
            },
            meta,
        ),
    ]
}

/// What processing a command-definition task guarantees.
pub open spec fn add_command_post(
    pre: ProcessHandler,
    post: ProcessHandler,
    trigger: Seq<char>,
    response: Seq<char>,
    meta: MetaModel,
    r: Result<Vec<(Response, Metadata)>, ProcessError>,
) -> bool {
    match r {
        Result::Ok(rs) => {
            &&& post.spec_commands() == pre.spec_commands().insert((meta.channel, trigger), response)
            &&& post.spec_quotes() == pre.spec_quotes()
            &&& same_sessions(pre, post)
            &&& response_pairs_view(rs@) == seq![
                say(
                    added_message(
                        pre.spec_commands().contains_key((meta.channel, trigger)),
                        pre.spec_prefix(),
                        trigger,
                    ),
                    meta,
                ),
            ]
        },
        Result::Err(_) => true,
    }
}

/// What processing a quote-addition task guarantees: the new record is stored
/// and confirmed, or the duplicate that was hit is reported and nothing
/// changes.
pub open spec fn add_quote_post(
    pre: ProcessHandler,
    post: ProcessHandler,
    username: Seq<char>,
    key: Option<Seq<char>>,
    text: Seq<char>,
    meta: MetaModel,
    now: Timestamp,
    r: Result<Vec<(Response, Metadata)>, ProcessError>,
) -> bool {
    match r {
        Result::Ok(rs) => {
            &&& post.spec_commands() == pre.spec_commands()
            &&& same_sessions(pre, post)
            &&& match key {
                Option::Some(k) => {
                    ||| {
                        &&& !has_key(pre.spec_quotes(), meta.channel, k)
                        &&& !has_text(pre.spec_quotes(), meta.channel, username, text)
                        &&& post.spec_quotes() == pre.spec_quotes().insert(
                            (
                                meta.channel,
                                username,
                                Option::Some(k),
                                text,
                                Option::Some(now.spec_date()),
                            ),
                        )
                        &&& response_pairs_view(rs@) == seq![
                            say(quote_added_keyed_message(k, username, now), meta),
                        ]
                    }
                    ||| {
                        &&& has_key(pre.spec_quotes(), meta.channel, k)
                        &&& post.spec_quotes() == pre.spec_quotes()
                        &&& response_pairs_view(rs@) == seq![say(duplicate_key_message(k), meta)]
                    }
                    ||| {
                        &&& !has_key(pre.spec_quotes(), meta.channel, k)
                        &&& has_text(pre.spec_quotes(), meta.channel, username, text)
                        &&& post.spec_quotes() == pre.spec_quotes()
                        &&& response_pairs_view(rs@) == seq![
                            say(duplicate_quote_message(username), meta),
                        ]
                    }
                },
                Option::None => {
                    ||| {
                        &&& !has_text(pre.spec_quotes(), meta.channel, username, text)
                        &&& post.spec_quotes() == pre.spec_quotes().insert(
                            (
                                meta.channel,
                                username,
                                Option::None,
                                text,
                                Option::Some(now.spec_date()),
                            ),
                        )
                        &&& response_pairs_view(rs@) == seq![
                            say(quote_added_message(username, now), meta),
                        ]
                    }
                    ||| {
                        &&& has_text(pre.spec_quotes(), meta.channel, username, text)
                        &&& post.spec_quotes() == pre.spec_quotes()
                        &&& response_pairs_view(rs@) == seq![
                            say(duplicate_quote_message(username), meta),
                        ]
                    }
                },
            }
        },
        Result::Err(_) => true,
    }
}

/// What processing a keyed quote fetch guarantees: silence exactly when the
/// key is unused, else the stored quote's display form.
pub open spec fn get_quote_post(
    pre: ProcessHandler,
    post: ProcessHandler,
    key: Seq<char>,
    meta: MetaModel,
    r: Result<Vec<(Response, Metadata)>, ProcessError>,
) -> bool {
    match r {
        Result::Ok(rs) => {
            &&& same_stores(pre, post)
            &&& same_sessions(pre, post)
            &&& {
                ||| {
                    &&& rs@.len() == 0
                    &&& !has_key(pre.spec_quotes(), meta.channel, key)
                }
                ||| exists|rec: QuoteRec|
                    {
                        &&& #[trigger] pre.spec_quotes().contains(rec)
                        &&& rec.0 == meta.channel
                        &&& rec.2 == Option::Some(key)
                        &&& response_pairs_view(rs@) == seq![
                            say(quote_display(rec.1, rec.2, rec.3, rec.4), meta),
                        ]
                    }
            }
        },
        Result::Err(_) => true,
    }
}

/// What processing a random quote fetch guarantees: silence exactly when the
/// channel has no quotes, else some stored quote's display form.
pub open spec fn random_quote_post(
    pre: ProcessHandler,
    post: ProcessHandler,
    meta: MetaModel,
    r: Result<Vec<(Response, Metadata)>, ProcessError>,
) -> bool {
    match r {
        Result::Ok(rs) => {
            &&& same_stores(pre, post)
            &&& same_sessions(pre, post)
            &&& {
                ||| {
                    &&& rs@.len() == 0
                    &&& !has_channel(pre.spec_quotes(), meta.channel)
                }
                ||| exists|rec: QuoteRec|
                    {
                        &&& #[trigger] pre.spec_quotes().contains(rec)
                        &&& rec.0 == meta.channel
                        &&& response_pairs_view(rs@) == seq![
                            say(quote_display(rec.1, rec.2, rec.3, rec.4), meta),
                        ]
                    }
            }
        },
        Result::Err(_) => true,
    }
}

/// What starting a word search guarantees: the channel's session holds the
/// full dictionary and the reply carries the midpoint guess.
pub open spec fn word_search_post(
    pre: ProcessHandler,
    post: ProcessHandler,
    meta: MetaModel,
    r: Result<Vec<(Response, Metadata)>, ProcessError>,
) -> bool {
    &&& r is Ok
    &&& same_stores(pre, post)
    &&& same_sessions_except(pre, post, meta.channel)
    &&& match post.spec_session(meta.channel) {
        Option::Some(s2) => {
            &&& s2.possible == s2.dictionary
            &&& match pre.spec_session(meta.channel) {
                Option::Some(s) => s2.dictionary == s.dictionary,
                Option::None => s2.dictionary.len() > 0,
            }
            &&& response_pairs_view(r->Ok_0@) == seq![say(guess_reply(s2.dictionary), meta)]
        },
        Option::None => false,
    }
}

/// What a lower- or upper-bound report guarantees: the session narrows per
/// the game's rule and the reply carries the new guess; without a session the
/// reply says how to start one.
pub open spec fn word_bound_post(
    pre: ProcessHandler,
    post: ProcessHandler,
    word: Seq<char>,
    distance: Option<usize>,
    lower: bool,
    meta: MetaModel,
    r: Result<Vec<(Response, Metadata)>, ProcessError>,
) -> bool {
    &&& r is Ok
    &&& same_stores(pre, post)
    &&& same_sessions_except(pre, post, meta.channel)
    &&& match pre.spec_session(meta.channel) {
        Option::Some(s) => {
            let narrowed = if lower {
                narrowed_lower(s.possible, word, distance)
            } else {
                narrowed_upper(s.possible, word, distance)
            };
            &&& post.spec_session(meta.channel) == Option::Some(
                SessionModel { dictionary: s.dictionary, possible: narrowed },
            )
            &&& response_pairs_view(r->Ok_0@) == seq![say(guess_reply(narrowed), meta)]
        },
        Option::None => {
            &&& post.spec_session(meta.channel) is None
            &&& response_pairs_view(r->Ok_0@) == seq![
                say(no_search_message(pre.spec_prefix()), meta),
            ]
        },
    }
}

/// What stopping a word search guarantees: the session is reset to the full
/// dictionary and confirmed, or its absence is reported.
pub open spec fn word_found_post(
    pre: ProcessHandler,
    post: ProcessHandler,
    meta: MetaModel,
    r: Result<Vec<(Response, Metadata)>, ProcessError>,
) -> bool {
    &&& r is Ok
    &&& same_stores(pre, post)
    &&& same_sessions_except(pre, post, meta.channel)
    &&& match pre.spec_session(meta.channel) {
        Option::Some(s) => {
            &&& post.spec_session(meta.channel) == Option::Some(
                (SessionModel { dictionary: s.dictionary, possible: s.dictionary }),
            )
            &&& response_pairs_view(r->Ok_0@) == seq![say(word_stopped_message(), meta)]
        },
        Option::None => {
            &&& post.spec_session(meta.channel) is None
            &&& response_pairs_view(r->Ok_0@) == seq![say(no_search_to_stop_message(), meta)]
        },
    }
}

/// Law: once a command definition for trigger `t` has succeeded with
/// response `R`, processing `Command{t}` in the same channel replies with
/// exactly `Say{R}`.
pub proof fn lemma_command_after_add(
    pre: ProcessHandler,
    mid: ProcessHandler,
    post: ProcessHandler,
    trigger: Seq<char>,
    response: Seq<char>,
    meta1: MetaModel,
    meta2: MetaModel,
    r1: Result<Vec<(Response, Metadata)>, ProcessError>,
    r2: Result<Vec<(Response, Metadata)>, ProcessError>,
)
    requires
        add_command_post(pre, mid, trigger, response, meta1, r1),
        r1 is Ok,
        command_task_post(mid, post, trigger, meta2, r2),
        r2 is Ok,
        meta2.channel == meta1.channel,
    ensures
        response_pairs_view(r2->Ok_0@) == seq![say(response, meta2)],
{
    assert(mid.spec_commands().contains_key((meta2.channel, trigger)));
    assert(mid.spec_commands()[(meta2.channel, trigger)] == response);
}

/// Law: re-defining the same trigger replaces the stored response (the
/// latest write wins), and the confirmation verb switches from the fresh
/// form to the updating form.
pub proof fn lemma_readd_replaces(
    pre: ProcessHandler,
    mid: ProcessHandler,
    post: ProcessHandler,
    trigger: Seq<char>,
    first_response: Seq<char>,
    second_response: Seq<char>,
    meta1: MetaModel,
    meta2: MetaModel,
    r1: Result<Vec<(Response, Metadata)>, ProcessError>,
    r2: Result<Vec<(Response, Metadata)>, ProcessError>,
)
    requires
        !pre.spec_commands().contains_key((meta1.channel, trigger)),
        add_command_post(pre, mid, trigger, first_response, meta1, r1),
        r1 is Ok,
        add_command_post(mid, post, trigger, second_response, meta2, r2),
        r2 is Ok,
        meta2.channel == meta1.channel,
    ensures
        post.spec_commands()[(meta2.channel, trigger)] == second_response,
        response_pairs_view(r1->Ok_0@) == seq![
            say(added_message(false, pre.spec_prefix(), trigger), meta1),
        ],
        response_pairs_view(r2->Ok_0@) == seq![
            say(added_message(true, mid.spec_prefix(), trigger), meta2),
        ],
{
    assert(mid.spec_commands().contains_key((meta2.channel, trigger)));
}

} // verus!
